use ghostview::messages::{ClientMessage, ServerMessage};
use ghostview::signaling::{
    inbound_action, outbound_action, send_result, CreateEvent, CreatedSlot, InboundAction,
    InboundEvent, OutboundAction, OutboundEvent, SignalingClient, SignalingError,
};
use ghostview::wire::{WireMessage, WireScalar, WireValue};

fn client() -> SignalingClient<u8, &'static str> {
    SignalingClient::new("ws://host/".to_string(), 7, "events")
}

fn text(value: &str) -> WireValue {
    WireValue::Scalar(WireScalar::Text(value.to_string()))
}

fn object(entries: &[(&str, &str)]) -> WireMessage {
    WireMessage::Object(
        entries
            .iter()
            .map(|(name, value)| (name.to_string(), text(value)))
            .collect(),
    )
}

#[test]
fn the_event_stream_is_taken_once() {
    let mut client = client();
    assert_eq!(client.url(), "ws://host/");
    assert_eq!(client.take_events(), Some("events"));
    assert_eq!(client.take_events(), None);
}

#[test]
fn a_closed_client_sends_nothing() {
    let mut client = client();
    assert_eq!(client.sender(), Some(&7));
    match client.send(ClientMessage::EndSession) {
        Ok((tx, ClientMessage::EndSession)) => assert_eq!(*tx, 7),
        _ => panic!("an open client sends"),
    }
    client.close();
    assert_eq!(client.sender(), None);
    assert!(matches!(
        client.send(ClientMessage::EndSession),
        Err(SignalingError::ChannelClosed)
    ));
    assert_eq!(client.url(), "ws://host/");
}

#[test]
fn a_send_succeeds_if_it_was_accepted() {
    assert!(send_result(true).is_ok());
    assert!(matches!(
        send_result(false),
        Err(SignalingError::ChannelClosed)
    ));
}

#[test]
fn a_request_is_answered_with_the_pin() {
    let client = client();
    let mut slot = CreatedSlot::new();
    match client.create_session(&mut slot, 'w') {
        Ok((tx, ClientMessage::CreateSession)) => assert_eq!(*tx, 7),
        _ => panic!("the request should go out"),
    }
    assert!(slot.on_message(&ServerMessage::ViewerJoined).is_none());
    let created = ServerMessage::SessionCreated {
        pin: "123456".to_string(),
    };
    match slot.on_message(&created) {
        Some((waiter, Ok(pin))) => {
            assert_eq!(waiter, 'w');
            assert_eq!(pin, "123456");
            assert_eq!(
                slot.conclude(CreateEvent::Replied(Ok(pin))).unwrap(),
                "123456"
            );
        }
        _ => panic!("the waiter should get the PIN"),
    }
    // The answer used the slot up.
    assert!(slot.on_message(&created).is_none());
}

#[test]
fn an_error_answers_a_request() {
    let mut slot = CreatedSlot::new();
    slot.arm('w').unwrap();
    let error = ServerMessage::Error {
        error: "rate_limited".to_string(),
    };
    match slot.on_message(&error) {
        Some(('w', Err(e))) => assert_eq!(e.message(), "server error: rate_limited"),
        _ => panic!("the waiter should get the error"),
    }
}

#[test]
fn an_unsolicited_error_answers_nothing() {
    let client = client();
    let mut slot: CreatedSlot<char> = CreatedSlot::new();
    let error = ServerMessage::Error {
        error: "early".to_string(),
    };
    assert!(slot.on_message(&error).is_none());
    // A later request is not affected.
    assert!(client.create_session(&mut slot, 'w').is_ok());
    let created = ServerMessage::SessionCreated {
        pin: "1".to_string(),
    };
    assert!(matches!(slot.on_message(&created), Some(('w', Ok(_)))));
}

#[test]
fn a_second_request_is_refused() {
    let client = client();
    let mut slot = CreatedSlot::new();
    assert!(client.create_session(&mut slot, 'a').is_ok());
    match client.create_session(&mut slot, 'b') {
        Err(e) => assert_eq!(
            e.message(),
            "protocol error: create_session already in flight"
        ),
        Ok(_) => panic!("two requests in flight"),
    }
    assert_eq!(slot.disarm(), Some('a'));
}

#[test]
fn a_closed_client_leaves_the_slot_free() {
    let mut client = client();
    client.close();
    let mut slot = CreatedSlot::new();
    assert!(matches!(
        client.create_session(&mut slot, 'a'),
        Err(SignalingError::ChannelClosed)
    ));
    assert_eq!(slot.disarm(), None);
}

#[test]
fn a_late_answer_goes_nowhere() {
    let mut slot = CreatedSlot::new();
    slot.arm('a').unwrap();
    match slot.conclude(CreateEvent::TimedOut) {
        Err(e) => assert_eq!(e.message(), "timed out waiting for session-created"),
        Ok(_) => panic!("a timeout is no PIN"),
    }
    let created = ServerMessage::SessionCreated {
        pin: "1".to_string(),
    };
    assert!(slot.on_message(&created).is_none());
    assert!(slot.arm('b').is_ok());
}

#[test]
fn other_ends_of_a_request() {
    let mut slot = CreatedSlot::new();
    slot.arm('a').unwrap();
    assert!(matches!(
        slot.conclude(CreateEvent::SendFailed),
        Err(SignalingError::ChannelClosed)
    ));
    assert_eq!(slot.disarm(), None);
    slot.arm('b').unwrap();
    assert!(matches!(
        slot.conclude(CreateEvent::WaiterDropped),
        Err(SignalingError::ChannelClosed)
    ));
    assert_eq!(slot.disarm(), Some('b'));
}

#[test]
fn the_outbound_pump() {
    match outbound_action(OutboundEvent::Message(ClientMessage::EndSession)) {
        OutboundAction::SendText(text) => assert_eq!(text, r#"{"type":"end-session"}"#),
        other => panic!("wrong action: {other:?}"),
    }
    assert!(matches!(
        outbound_action(OutboundEvent::KeepaliveDue),
        OutboundAction::SendPing
    ));
    assert!(matches!(
        outbound_action(OutboundEvent::Sent),
        OutboundAction::Wait
    ));
    assert!(matches!(
        outbound_action(OutboundEvent::SendersGone),
        OutboundAction::Close
    ));
    assert!(matches!(
        outbound_action(OutboundEvent::SendFailed),
        OutboundAction::Close
    ));
}

#[test]
fn the_inbound_pump_delivers_and_answers() {
    let mut slot = CreatedSlot::new();
    slot.arm('w').unwrap();
    let frame = object(&[("type", "session-created"), ("pin", "77")]);
    match inbound_action(&mut slot, InboundEvent::Text(Some(frame))) {
        InboundAction::Deliver {
            message: ServerMessage::SessionCreated { pin },
            reply: Some(('w', Ok(answer))),
        } => {
            assert_eq!(pin, "77");
            assert_eq!(answer, "77");
        }
        _ => panic!("the PIN should be delivered and answered"),
    }
    // With nobody waiting the message is still delivered.
    let frame = object(&[("type", "error"), ("error", "x")]);
    match inbound_action(&mut slot, InboundEvent::Text(Some(frame))) {
        InboundAction::Deliver {
            message: ServerMessage::Error { error },
            reply: None,
        } => assert_eq!(error, "x"),
        _ => panic!("the error should be delivered"),
    }
}

#[test]
fn the_inbound_pump_skips_and_stops() {
    let mut slot: CreatedSlot<char> = CreatedSlot::new();
    for event in [
        InboundEvent::Text(None),
        InboundEvent::Text(Some(object(&[("type", "nonsense")]))),
        InboundEvent::Binary,
        InboundEvent::Ping,
        InboundEvent::Pong,
        InboundEvent::Raw,
    ] {
        assert!(matches!(
            inbound_action(&mut slot, event),
            InboundAction::Skip
        ));
    }
    for event in [
        InboundEvent::Close,
        InboundEvent::Failed,
        InboundEvent::Ended,
        InboundEvent::ReceiverGone,
    ] {
        assert!(matches!(
            inbound_action(&mut slot, event),
            InboundAction::Stop
        ));
    }
}

#[test]
fn signaling_errors_say_what_failed() {
    let s = |text: &str| text.to_string();
    assert_eq!(
        SignalingError::WebSocket(s("refused")).message(),
        "websocket error: refused"
    );
    assert_eq!(
        SignalingError::Protocol(s("odd")).message(),
        "protocol error: odd"
    );
    assert_eq!(
        SignalingError::Server(s("full")).message(),
        "server error: full"
    );
    assert_eq!(
        SignalingError::Timeout("pong").message(),
        "timed out waiting for pong"
    );
    assert_eq!(SignalingError::Json(s("eof")).message(), "json error: eof");
    assert_eq!(SignalingError::ChannelClosed.message(), "channel closed");
}

#[test]
fn a_run_of_frames_yields_its_messages() {
    let mut slot = CreatedSlot::new();
    slot.arm('w').unwrap();
    let frames = vec![
        InboundEvent::Ping,
        InboundEvent::Text(Some(object(&[("type", "session-created"), ("pin", "1")]))),
        InboundEvent::Text(None),
        InboundEvent::Text(Some(object(&[("type", "nonsense")]))),
        InboundEvent::Binary,
        InboundEvent::Text(Some(object(&[("type", "error"), ("error", "e")]))),
        InboundEvent::Pong,
        InboundEvent::Text(Some(object(&[("type", "viewer-joined")]))),
        InboundEvent::Close,
        InboundEvent::Text(Some(object(&[("type", "session-expired")]))),
    ];
    let mut yielded = Vec::new();
    let mut answers = 0;
    for frame in frames {
        match inbound_action(&mut slot, frame) {
            InboundAction::Deliver { message, reply } => {
                answers += reply.iter().count();
                yielded.push(message);
            }
            InboundAction::Skip => {}
            InboundAction::Stop => break,
        }
    }
    assert_eq!(yielded.len(), 3);
    assert!(matches!(&yielded[0], ServerMessage::SessionCreated { pin } if pin == "1"));
    assert!(matches!(&yielded[1], ServerMessage::Error { error } if error == "e"));
    assert!(matches!(&yielded[2], ServerMessage::ViewerJoined));
    assert_eq!(answers, 1);
}
