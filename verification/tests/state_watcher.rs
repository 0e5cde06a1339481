use ghostview::state_watcher::{StateWatcher, WatchAction, WatchEvent, DISCONNECT_GRACE_MS};
use ghostview::tasks::ShutdownReason;
use ghostview::webrtc_host::ConnState;

fn state(state: ConnState) -> WatchEvent {
    WatchEvent::State(state)
}

/// Ten `Disconnected` in quick succession, then the stream of states ends:
/// the grace window still lasts as long as it would have without them.
#[test]
fn grace_window_single_deadline() {
    let mut watcher = StateWatcher::new();
    let start: u64 = 0;
    let mut action = watcher.on_event(start, state(ConnState::Disconnected));
    for i in 0..10u64 {
        let now = start + 100 * (i + 1);
        action = watcher.on_event(now, state(ConnState::Disconnected));
        assert_eq!(
            action,
            WatchAction::ListenFor {
                ms: DISCONNECT_GRACE_MS - 100 * (i + 1)
            }
        );
        if i == 9 {
            action = watcher.on_event(now, WatchEvent::StreamEnded);
        }
    }
    let mut now = start + 1_000;
    let reason = loop {
        match action {
            WatchAction::Listen | WatchAction::Finish => panic!("the window was left open"),
            WatchAction::ListenFor { ms } | WatchAction::Sleep { ms } => {
                now += ms;
                action = watcher.on_event(now, WatchEvent::Timer);
            }
            WatchAction::Shutdown(reason) => break reason,
        }
    };
    assert_eq!(reason, ShutdownReason::IceDisconnectedTimeout);
    let expected_grace_secs = DISCONNECT_GRACE_MS as f64 / 1_000.0;
    let actual_secs = (now - start) as f64 / 1_000.0;
    assert!(
        (actual_secs - expected_grace_secs).abs() < 1.0,
        "Grace window should expire at ~{:.1}s, but expired at {:.1}s",
        expected_grace_secs,
        actual_secs
    );
}

#[test]
fn the_window_lasts_fifteen_seconds() {
    let mut watcher = StateWatcher::new();
    assert_eq!(
        watcher.on_event(1_000, state(ConnState::Disconnected)),
        WatchAction::ListenFor { ms: 15_000 }
    );
    assert_eq!(
        watcher.on_event(15_999, state(ConnState::Connecting)),
        WatchAction::ListenFor { ms: 1 }
    );
    assert_eq!(
        watcher.on_event(16_000, state(ConnState::Connecting)),
        WatchAction::Shutdown(ShutdownReason::IceDisconnectedTimeout)
    );
    // Nothing follows a shutdown.
    assert_eq!(
        watcher.on_event(16_001, state(ConnState::Failed)),
        WatchAction::Finish
    );
}

#[test]
fn an_early_timer_waits_on() {
    let mut watcher = StateWatcher::new();
    watcher.on_event(0, state(ConnState::Disconnected));
    assert_eq!(
        watcher.on_event(14_000, WatchEvent::Timer),
        WatchAction::ListenFor { ms: 1_000 }
    );
    assert_eq!(
        watcher.on_event(14_500, WatchEvent::StreamEnded),
        WatchAction::Sleep { ms: 500 }
    );
    assert_eq!(
        watcher.on_event(15_000, WatchEvent::Timer),
        WatchAction::Shutdown(ShutdownReason::IceDisconnectedTimeout)
    );
}

#[test]
fn a_peer_that_comes_back_is_watched_again() {
    let mut watcher = StateWatcher::new();
    watcher.on_event(0, state(ConnState::Disconnected));
    assert_eq!(
        watcher.on_event(9_000, state(ConnState::Connected)),
        WatchAction::Listen
    );
    assert_eq!(
        watcher.on_event(20_000, state(ConnState::Disconnected)),
        WatchAction::ListenFor { ms: 15_000 }
    );
}

#[test]
fn terminal_states() {
    for (last, reason) in [
        (ConnState::Failed, ShutdownReason::IceFailed),
        (ConnState::Closed, ShutdownReason::IceClosed),
    ] {
        let mut watcher = StateWatcher::new();
        assert_eq!(
            watcher.on_event(0, state(ConnState::Connecting)),
            WatchAction::Listen
        );
        assert_eq!(
            watcher.on_event(1, state(ConnState::Connected)),
            WatchAction::Listen
        );
        assert_eq!(
            watcher.on_event(2, state(last)),
            WatchAction::Shutdown(reason)
        );
    }
    for last in [ConnState::Failed, ConnState::Closed] {
        let mut watcher = StateWatcher::new();
        watcher.on_event(0, state(ConnState::Disconnected));
        assert_eq!(
            watcher.on_event(1, state(last)),
            WatchAction::Shutdown(ShutdownReason::IceDisconnectedTerminal)
        );
    }
}

#[test]
fn without_states_the_watcher_just_ends() {
    let mut watcher = StateWatcher::new();
    assert_eq!(watcher.on_event(0, state(ConnState::New)), WatchAction::Listen);
    assert_eq!(
        watcher.on_event(1, WatchEvent::StreamEnded),
        WatchAction::Finish
    );
}

#[test]
fn the_end_of_time_is_a_deadline_too() {
    let mut watcher = StateWatcher::new();
    assert_eq!(
        watcher.on_event(u64::MAX - 5, state(ConnState::Disconnected)),
        WatchAction::ListenFor { ms: 5 }
    );
}
