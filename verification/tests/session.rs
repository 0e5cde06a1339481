use ghostview::capture::CaptureError;
use ghostview::codec::CodecError;
use ghostview::session::{
    events_for_loop, ice_servers, ice_stream_for_forwarder, sender_for_tasks, signaling_url,
    state_stream_for_watcher, Acquired, AppState, InitStep, PartialInit, Running, SessionError,
    TeardownStep,
};
use ghostview::messages::ServerMessage;
use ghostview::signaling::{CreateEvent, CreatedSlot, SignalingError};
use ghostview::webrtc_host::WebRtcError;

type State = AppState<&'static str, &'static str, &'static str, &'static str>;
type Partial = PartialInit<&'static str, &'static str, &'static str, &'static str>;
type Session = Running<&'static str, &'static str, &'static str, &'static str>;
type Step = TeardownStep<&'static str, &'static str, &'static str, &'static str>;
type Gain = Acquired<&'static str, &'static str, &'static str, &'static str>;

fn gain(stage: usize) -> Gain {
    match stage {
        0 => Acquired::Signaling {
            client: "client",
            pin: "123456".to_string(),
        },
        1 => Acquired::Peer("peer"),
        2 => Acquired::Capture("capture"),
        3 => Acquired::Encoder {
            blocking: "blocking",
            forwarder: "forwarder",
        },
        4 => Acquired::SignalingLoop("loop"),
        5 => Acquired::IceForwarder("ice"),
        _ => Acquired::StateWatcher("state"),
    }
}

fn partial(stages: usize) -> Partial {
    let mut partial = PartialInit::new();
    for stage in 0..stages {
        partial.acquired(gain(stage));
    }
    partial
}

fn running() -> Session {
    match partial(7).into_running() {
        Ok(running) => running,
        Err(_) => panic!("everything is up"),
    }
}

fn show(steps: Vec<Step>) -> Vec<String> {
    steps
        .into_iter()
        .map(|step| match step {
            TeardownStep::EndSession(s) => format!("end {s}"),
            TeardownStep::StopCapture(c) => format!("stop {c}"),
            TeardownStep::ClosePeer(p) => format!("close {p}"),
            TeardownStep::Flush { ms } => format!("flush {ms}"),
            TeardownStep::Join { task, budget_ms } => format!("join {task} {budget_ms}"),
        })
        .collect()
}

#[test]
fn double_start_rejected() {
    let mut state = State::new();
    match state.start() {
        Ok(mut partial) => {
            for stage in 0..7 {
                partial.acquired(gain(stage));
            }
            match partial.into_running() {
                Ok(running) => assert_eq!(state.install(running), "123456"),
                Err(_) => panic!("everything is up"),
            }
            let result = state.start();
            assert!(matches!(result, Err(SessionError::AlreadyRunning)));
            let _ = state.stop();
        }
        Err(e) => panic!("unexpected error on first start: {}", e.message()),
    }
    assert!(state.start().is_ok());
}

#[test]
fn stop_without_start_returns_not_running() {
    let mut state = State::new();
    let result = state.stop();
    assert!(matches!(result, Err(SessionError::NotRunning)));
}

#[test]
fn a_session_comes_up_step_by_step() {
    let steps = [
        InitStep::OpenSignaling,
        InitStep::BuildPeer,
        InitStep::StartCapture,
        InitStep::SpawnEncoder,
        InitStep::SpawnSignalingLoop,
        InitStep::SpawnIceForwarder,
        InitStep::SpawnStateWatcher,
        InitStep::Complete,
    ];
    for (stage, step) in steps.into_iter().enumerate() {
        assert_eq!(partial(stage).next_step(), step);
        assert_eq!(partial(stage).into_running().is_ok(), stage == 7);
    }
}

#[test]
fn a_failed_start_is_cleaned_up() {
    let all = [
        "join state 200",
        "join ice 200",
        "join loop 500",
        "join forwarder 500",
        "join blocking 1000",
        "stop capture",
        "close peer",
        "end client",
    ];
    // What came up last is taken down first.
    assert!(show(partial(0).cleanup()).is_empty());
    assert!(show(Partial::default().cleanup()).is_empty());
    assert_eq!(show(partial(1).cleanup()), &all[7..]);
    assert_eq!(show(partial(2).cleanup()), &all[6..]);
    assert_eq!(show(partial(3).cleanup()), &all[5..]);
    assert_eq!(show(partial(4).cleanup()), &all[3..]);
    assert_eq!(show(partial(5).cleanup()), &all[2..]);
    assert_eq!(show(partial(6).cleanup()), &all[1..]);
    assert_eq!(show(partial(7).cleanup()), &all[..]);
}

#[test]
fn teardown_in_order() {
    let steps = show(running().teardown());
    assert_eq!(
        steps,
        [
            "end client",
            "stop capture",
            "close peer",
            "flush 100",
            "join forwarder 500",
            "join blocking 1000",
            "join loop 500",
            "join ice 200",
            "join state 200",
        ]
    );
    let mut without_flush = steps;
    without_flush.remove(3);
    without_flush.sort();
    let mut cleanup = show(partial(7).cleanup());
    cleanup.sort();
    assert_eq!(without_flush, cleanup);
}

#[test]
fn a_session_is_torn_down_once() {
    // The user is faster.
    let mut state = State::new();
    state.install(running());
    assert_eq!(state.stop().unwrap().len(), 9);
    assert!(state.shut_down().is_none());
    // The supervisor is faster.
    let mut state = State::default();
    state.install(running());
    assert!(state.is_running());
    assert_eq!(state.current_pin().as_deref(), Some("123456"));
    assert_eq!(state.shut_down().unwrap().len(), 9);
    assert!(!state.is_running());
    assert_eq!(state.current_pin(), None);
    assert!(matches!(state.stop(), Err(SessionError::NotRunning)));
}

#[test]
fn of_many_takers_the_first_gets_the_session() {
    let mut state = State::new();
    state.install(running());
    let mut taken = Vec::new();
    for by_user in [false, true, true, false, true] {
        taken.push(if by_user {
            state.stop().ok().map(show)
        } else {
            state.shut_down().map(show)
        });
        assert!(!state.is_running());
    }
    assert_eq!(taken.remove(0), Some(show(running().teardown())));
    assert!(taken.iter().all(|steps| steps.is_none()));
}

#[test]
fn the_pin_is_the_one_the_server_sent() {
    let mut slot = CreatedSlot::new();
    slot.arm(()).unwrap();
    let created = ServerMessage::SessionCreated {
        pin: "048213".to_string(),
    };
    let reply = match slot.on_message(&created) {
        Some(((), reply)) => reply,
        None => panic!("the request should be answered"),
    };
    let pin = slot.conclude(CreateEvent::Replied(reply)).unwrap();
    let mut state = State::new();
    let mut partial = state.start().unwrap_or_else(|_| panic!("nothing runs"));
    partial.acquired(Acquired::Signaling {
        client: "client",
        pin,
    });
    for stage in 1..7 {
        partial.acquired(gain(stage));
    }
    let running = match partial.into_running() {
        Ok(running) => running,
        Err(_) => panic!("everything is up"),
    };
    let given = state.install(running);
    assert_eq!(given, "048213");
    assert!(given.len() == 6 && given.chars().all(|c| c.is_ascii_digit()));
    assert!(state.is_running());
    assert_eq!(state.current_pin(), Some(given));
    assert!(state.stop().is_ok());
    assert_eq!(state.current_pin(), None);
}

#[test]
fn the_address_of_the_server() {
    assert_eq!(signaling_url(None), "ws://localhost:8443/");
    assert_eq!(
        signaling_url(Some("wss://example.org/".to_string())),
        "wss://example.org/"
    );
    assert_eq!(signaling_url(Some(String::new())), "");
}

#[test]
fn the_ice_servers() {
    let urls = |configured: Option<&str>| {
        let mut servers = ice_servers(configured.map(|list| list.to_string()));
        assert_eq!(servers.len(), 1);
        let server = servers.remove(0);
        assert_eq!(server.username, "");
        assert_eq!(server.credential, "");
        server.urls
    };
    assert_eq!(urls(None), ["stun:stun.l.google.com:19302"]);
    assert_eq!(urls(Some("stun:a:1")), ["stun:a:1"]);
    assert_eq!(
        urls(Some(" stun:a:1 ,\tturn:b:2\u{a0}, ,,\u{3000}turn:c d:3,")),
        ["stun:a:1", "turn:b:2", "turn:c d:3"]
    );
    assert_eq!(urls(Some("")), Vec::<String>::new());
    assert_eq!(urls(Some(" , ")), Vec::<String>::new());
}

#[test]
fn white_space_is_that_of_unicode() {
    for n in 0..=0x10ffffu32 {
        if let Some(c) = char::from_u32(n) {
            if c.is_whitespace() || (n % 977 == 0 && c != ',') {
                let list: String = [c, 'x', c].iter().collect();
                let servers = ice_servers(Some(list.clone()));
                assert_eq!(servers[0].urls, [list.trim()], "{n:x}");
            }
        }
    }
}

#[test]
fn streams_that_are_gone_are_errors() {
    assert_eq!(events_for_loop(Some(1)).unwrap(), 1);
    assert_eq!(sender_for_tasks(Some(2)).unwrap(), 2);
    assert_eq!(ice_stream_for_forwarder(Some(3)).unwrap(), 3);
    assert_eq!(state_stream_for_watcher(Some(4)).unwrap(), 4);
    assert_eq!(
        events_for_loop::<u8>(None).unwrap_err().message(),
        "signaling: protocol error: signaling events already taken"
    );
    assert_eq!(
        sender_for_tasks::<u8>(None).unwrap_err().message(),
        "signaling: protocol error: signaling sender unavailable"
    );
    assert_eq!(
        ice_stream_for_forwarder::<u8>(None).unwrap_err().message(),
        "webrtc: invalid state: ice stream already taken"
    );
    assert_eq!(
        state_stream_for_watcher::<u8>(None).unwrap_err().message(),
        "webrtc: invalid state: state stream already taken"
    );
}

#[test]
fn session_errors_say_what_failed() {
    assert_eq!(SessionError::AlreadyRunning.message(), "already running");
    assert_eq!(SessionError::NotRunning.message(), "not running");
    assert_eq!(
        SessionError::from(CaptureError::MonitorNotFound(3)).message(),
        "capture: monitor 3 not found"
    );
    assert_eq!(
        SessionError::from(CodecError::Init("x".to_string())).message(),
        "codec: codec init failed: x"
    );
    assert_eq!(
        SessionError::from(SignalingError::ChannelClosed).message(),
        "signaling: channel closed"
    );
    assert_eq!(
        SessionError::from(WebRtcError::Webrtc("x".to_string())).message(),
        "webrtc: webrtc error: x"
    );
}
