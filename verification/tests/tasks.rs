use ghostview::messages::{ClientMessage, IceCandidateInit, SdpPayload, ServerMessage};
use ghostview::tasks::{
    abort_after, encoder_exit, forward_step, shutdown_reason, signaling_step, EncoderTask,
    ForwardAction, ForwardEvent, HostAction, HostEvent, JoinOutcome, JoinVerdict, ShutdownReason,
    SHUTDOWN_CAPACITY,
};
use ghostview::webrtc_host::LocalIceCandidate;

fn sdp(kind: &str, sdp: &str) -> SdpPayload {
    SdpPayload {
        kind: kind.to_string(),
        sdp: sdp.to_string(),
    }
}

fn on(message: ServerMessage) -> HostAction {
    signaling_step(HostEvent::Message(message))
}

fn local(candidate: &str) -> LocalIceCandidate {
    LocalIceCandidate {
        candidate: candidate.to_string(),
        sdp_mid: Some("m".to_string()),
        sdp_mline_index: Some(2),
        username_fragment: None,
    }
}

#[test]
fn a_viewer_gets_an_offer() {
    assert!(matches!(
        on(ServerMessage::ViewerJoined),
        HostAction::CreateOffer
    ));
    match signaling_step(HostEvent::OfferMade(Some("v=0".to_string()))) {
        HostAction::SendOffer(ClientMessage::Offer { sdp }) => {
            assert_eq!(sdp.kind, "offer");
            assert_eq!(sdp.sdp, "v=0");
        }
        _ => panic!("the offer should be sent"),
    }
    assert!(matches!(
        signaling_step(HostEvent::OfferSent(true)),
        HostAction::Listen
    ));
    assert!(matches!(
        signaling_step(HostEvent::OfferMade(None)),
        HostAction::Stop(Some(ShutdownReason::CreateOfferFailed))
    ));
    assert!(matches!(
        signaling_step(HostEvent::OfferSent(false)),
        HostAction::Stop(None)
    ));
}

#[test]
fn an_answer_is_applied() {
    match on(ServerMessage::Answer {
        sdp: sdp("answer", "v=0"),
    }) {
        HostAction::SetAnswer(text) => assert_eq!(text, "v=0"),
        _ => panic!("the answer should be applied"),
    }
    assert!(matches!(
        signaling_step(HostEvent::AnswerApplied(true)),
        HostAction::Listen
    ));
    assert!(matches!(
        signaling_step(HostEvent::AnswerApplied(false)),
        HostAction::Stop(Some(ShutdownReason::SetAnswerFailed))
    ));
}

#[test]
fn candidates_are_added() {
    let init = IceCandidateInit {
        candidate: "c".to_string(),
        sdp_mid: None,
        sdp_mline_index: Some(1),
        username_fragment: None,
    };
    match on(ServerMessage::IceCandidate {
        candidate: Some(init),
    }) {
        HostAction::AddCandidate(c) => {
            assert_eq!(c.candidate, "c");
            assert_eq!(c.sdp_mline_index, Some(1));
        }
        _ => panic!("the candidate should be added"),
    }
    assert!(matches!(
        on(ServerMessage::IceCandidate { candidate: None }),
        HostAction::Listen
    ));
    for added in [true, false] {
        assert!(matches!(
            signaling_step(HostEvent::CandidateAdded(added)),
            HostAction::Listen
        ));
    }
}

#[test]
fn what_the_host_ignores() {
    for message in [
        ServerMessage::Offer {
            sdp: sdp("offer", "v=0"),
        },
        ServerMessage::SessionCreated {
            pin: "1".to_string(),
        },
        ServerMessage::SessionJoined,
        ServerMessage::Error {
            error: "invalid_pin".to_string(),
        },
    ] {
        assert!(matches!(on(message), HostAction::Listen));
    }
}

#[test]
fn what_ends_a_session() {
    for message in [
        ServerMessage::PeerDisconnected,
        ServerMessage::SessionExpired,
    ] {
        assert!(matches!(
            on(message),
            HostAction::Stop(Some(ShutdownReason::PeerDisconnected))
        ));
    }
    for error in ["server_shutdown", "rate_limited"] {
        assert!(matches!(
            on(ServerMessage::Error {
                error: error.to_string()
            }),
            HostAction::Stop(Some(ShutdownReason::ServerError))
        ));
    }
    assert!(matches!(
        signaling_step(HostEvent::StreamEnded),
        HostAction::Stop(None)
    ));
}

#[test]
fn candidates_are_relayed() {
    match forward_step(ForwardEvent::Candidate(local("candidate:9"))) {
        ForwardAction::Send(ClientMessage::IceCandidate { candidate: Some(c) }) => {
            assert_eq!(c.candidate, "candidate:9");
            assert_eq!(c.sdp_mid.as_deref(), Some("m"));
            assert_eq!(c.sdp_mline_index, Some(2));
            assert_eq!(c.username_fragment, None);
        }
        _ => panic!("the candidate should be relayed"),
    }
    assert!(matches!(
        forward_step(ForwardEvent::Candidate(local(""))),
        ForwardAction::Send(ClientMessage::IceCandidate { candidate: None })
    ));
    assert!(matches!(
        forward_step(ForwardEvent::Sent(true)),
        ForwardAction::Listen
    ));
}

#[test]
fn the_viewer_is_told_the_end() {
    for event in [ForwardEvent::StreamEnded, ForwardEvent::Sent(false)] {
        assert!(matches!(
            forward_step(event),
            ForwardAction::SendLast(ClientMessage::IceCandidate { candidate: None })
        ));
    }
}

#[test]
fn supervisor_teardown_with_panic_signals() {
    // A task that panicked is reported and not aborted.
    assert_eq!(abort_after(JoinOutcome::Panicked), JoinVerdict::Panic);
}

#[test]
fn only_a_hanging_task_is_aborted() {
    assert_eq!(abort_after(JoinOutcome::TimedOut), JoinVerdict::Abort);
    assert_eq!(abort_after(JoinOutcome::Finished), JoinVerdict::Clean);
    assert_eq!(abort_after(JoinOutcome::Cancelled), JoinVerdict::Clean);
    assert_eq!(abort_after(JoinOutcome::Failed), JoinVerdict::Unusual);
}

#[test]
fn an_encoder_panic_ends_the_session() {
    assert_eq!(encoder_exit(EncoderTask::Blocking, false), None);
    assert_eq!(encoder_exit(EncoderTask::Forwarder, false), None);
    assert_eq!(
        encoder_exit(EncoderTask::Blocking, true),
        Some(ShutdownReason::EncoderPanic)
    );
    assert_eq!(
        encoder_exit(EncoderTask::Forwarder, true),
        Some(ShutdownReason::EncoderForwarderPanic)
    );
    // Every one of the five tasks can send a signal, and more than one.
    assert_eq!(SHUTDOWN_CAPACITY, 10);
}

#[test]
fn reasons_have_names() {
    for (reason, name) in [
        (ShutdownReason::CreateOfferFailed, "create_offer_failed"),
        (ShutdownReason::SetAnswerFailed, "set_answer_failed"),
        (ShutdownReason::PeerDisconnected, "peer_disconnected"),
        (ShutdownReason::ServerError, "server_error"),
        (ShutdownReason::IceFailed, "ice_failed"),
        (ShutdownReason::IceClosed, "ice_closed"),
        (
            ShutdownReason::IceDisconnectedTerminal,
            "ice_disconnected_terminal",
        ),
        (
            ShutdownReason::IceDisconnectedTimeout,
            "ice_disconnected_timeout",
        ),
        (ShutdownReason::EncoderPanic, "encoder_panic"),
        (
            ShutdownReason::EncoderForwarderPanic,
            "encoder_forwarder_panic",
        ),
        (ShutdownReason::Unknown, "unknown"),
    ] {
        assert_eq!(reason.as_str(), name);
        assert_eq!(shutdown_reason(Some(reason)), reason);
    }
    assert_eq!(shutdown_reason(None), ShutdownReason::Unknown);
}

#[test]
fn a_run_of_candidates_ends_with_the_end() {
    let mut sent = Vec::new();
    let mut action = ForwardAction::Listen;
    let mut found = vec!["candidate:1", "candidate:2", "candidate:3"].into_iter();
    loop {
        let event = match action {
            ForwardAction::Listen => match found.next() {
                Some(candidate) => ForwardEvent::Candidate(local(candidate)),
                None => ForwardEvent::StreamEnded,
            },
            ForwardAction::Send(message) => {
                sent.push(message);
                ForwardEvent::Sent(true)
            }
            ForwardAction::SendLast(message) => {
                sent.push(message);
                break;
            }
        };
        action = forward_step(event);
    }
    let lines: Vec<Option<String>> = sent
        .into_iter()
        .map(|message| match message {
            ClientMessage::IceCandidate { candidate } => candidate.map(|c| c.candidate),
            _ => panic!("only candidates are forwarded"),
        })
        .collect();
    assert_eq!(
        lines,
        vec![
            Some("candidate:1".to_string()),
            Some("candidate:2".to_string()),
            Some("candidate:3".to_string()),
            None,
        ]
    );
}

#[test]
fn the_first_ending_message_decides() {
    let error = |error: &str| ServerMessage::Error {
        error: error.to_string(),
    };
    let run = |messages: Vec<ServerMessage>| {
        let mut reasons = Vec::new();
        let mut looked_at = 0;
        for message in messages {
            looked_at += 1;
            if let HostAction::Stop(reason) = on(message) {
                reasons.extend(reason);
                break;
            }
        }
        (reasons, looked_at)
    };
    assert_eq!(
        run(vec![
            error("invalid_pin"),
            ServerMessage::ViewerJoined,
            error("rate_limited"),
            ServerMessage::PeerDisconnected,
        ]),
        (vec![ShutdownReason::ServerError], 3)
    );
    assert_eq!(
        run(vec![ServerMessage::SessionExpired, error("rate_limited")]),
        (vec![ShutdownReason::PeerDisconnected], 1)
    );
    assert_eq!(
        run(vec![ServerMessage::SessionJoined, error("x")]),
        (vec![], 2)
    );
}
