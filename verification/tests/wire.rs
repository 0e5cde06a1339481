use ghostview::messages::{ClientMessage, IceCandidateInit, SdpPayload, ServerMessage};
use ghostview::wire::{WireMessage, WireScalar, WireValue};
use serde::de::{Deserialize, Deserializer, MapAccess, SeqAccess, Visitor};
use std::fmt;

// ---------------------------------------------------------------------------
// From JSON text to a wire message
// ---------------------------------------------------------------------------

struct Scalar(WireScalar);

struct Value(WireValue);

struct Message(WireMessage);

impl<'de> Deserialize<'de> for Scalar {
    fn deserialize<D: Deserializer<'de>>(deserializer: D) -> Result<Self, D::Error> {
        deserializer.deserialize_any(ScalarVisitor)
    }
}

struct ScalarVisitor;

impl<'de> Visitor<'de> for ScalarVisitor {
    type Value = Scalar;

    fn expecting(&self, f: &mut fmt::Formatter) -> fmt::Result {
        f.write_str("a JSON value")
    }

    fn visit_unit<E>(self) -> Result<Scalar, E> {
        Ok(Scalar(WireScalar::Null))
    }

    fn visit_str<E>(self, text: &str) -> Result<Scalar, E> {
        Ok(Scalar(WireScalar::Text(text.to_string())))
    }

    fn visit_u64<E>(self, number: u64) -> Result<Scalar, E> {
        Ok(Scalar(WireScalar::Whole(number)))
    }

    fn visit_i64<E>(self, _: i64) -> Result<Scalar, E> {
        Ok(Scalar(WireScalar::Other))
    }

    fn visit_f64<E>(self, _: f64) -> Result<Scalar, E> {
        Ok(Scalar(WireScalar::Other))
    }

    fn visit_bool<E>(self, _: bool) -> Result<Scalar, E> {
        Ok(Scalar(WireScalar::Other))
    }

    fn visit_seq<A: SeqAccess<'de>>(self, mut seq: A) -> Result<Scalar, A::Error> {
        while seq.next_element::<Scalar>()?.is_some() {}
        Ok(Scalar(WireScalar::Other))
    }

    fn visit_map<A: MapAccess<'de>>(self, mut map: A) -> Result<Scalar, A::Error> {
        while map.next_entry::<String, Scalar>()?.is_some() {}
        Ok(Scalar(WireScalar::Other))
    }
}

impl<'de> Deserialize<'de> for Value {
    fn deserialize<D: Deserializer<'de>>(deserializer: D) -> Result<Self, D::Error> {
        deserializer.deserialize_any(ValueVisitor)
    }
}

struct ValueVisitor;

impl ValueVisitor {
    fn scalar<E>(result: Result<Scalar, E>) -> Result<Value, E> {
        result.map(|scalar| Value(WireValue::Scalar(scalar.0)))
    }
}

impl<'de> Visitor<'de> for ValueVisitor {
    type Value = Value;

    fn expecting(&self, f: &mut fmt::Formatter) -> fmt::Result {
        f.write_str("a JSON value")
    }

    fn visit_unit<E: serde::de::Error>(self) -> Result<Value, E> {
        Self::scalar(ScalarVisitor.visit_unit())
    }

    fn visit_str<E: serde::de::Error>(self, text: &str) -> Result<Value, E> {
        Self::scalar(ScalarVisitor.visit_str(text))
    }

    fn visit_u64<E: serde::de::Error>(self, number: u64) -> Result<Value, E> {
        Self::scalar(ScalarVisitor.visit_u64(number))
    }

    fn visit_i64<E: serde::de::Error>(self, number: i64) -> Result<Value, E> {
        Self::scalar(ScalarVisitor.visit_i64(number))
    }

    fn visit_f64<E: serde::de::Error>(self, number: f64) -> Result<Value, E> {
        Self::scalar(ScalarVisitor.visit_f64(number))
    }

    fn visit_bool<E: serde::de::Error>(self, flag: bool) -> Result<Value, E> {
        Self::scalar(ScalarVisitor.visit_bool(flag))
    }

    fn visit_seq<A: SeqAccess<'de>>(self, mut seq: A) -> Result<Value, A::Error> {
        let mut items = Vec::new();
        while let Some(Scalar(item)) = seq.next_element()? {
            items.push(item);
        }
        Ok(Value(WireValue::List(items)))
    }

    fn visit_map<A: MapAccess<'de>>(self, mut map: A) -> Result<Value, A::Error> {
        let mut entries = Vec::new();
        while let Some((name, Scalar(value))) = map.next_entry()? {
            entries.push((name, value));
        }
        Ok(Value(WireValue::Object(entries)))
    }
}

impl<'de> Deserialize<'de> for Message {
    fn deserialize<D: Deserializer<'de>>(deserializer: D) -> Result<Self, D::Error> {
        deserializer.deserialize_any(MessageVisitor)
    }
}

struct MessageVisitor;

impl<'de> Visitor<'de> for MessageVisitor {
    type Value = Message;

    fn expecting(&self, f: &mut fmt::Formatter) -> fmt::Result {
        f.write_str("a JSON object or list")
    }

    fn visit_seq<A: SeqAccess<'de>>(self, mut seq: A) -> Result<Message, A::Error> {
        let mut items = Vec::new();
        while let Some(Value(item)) = seq.next_element()? {
            items.push(item);
        }
        Ok(Message(WireMessage::List(items)))
    }

    fn visit_map<A: MapAccess<'de>>(self, mut map: A) -> Result<Message, A::Error> {
        let mut entries = Vec::new();
        while let Some((name, Value(value))) = map.next_entry()? {
            entries.push((name, value));
        }
        Ok(Message(WireMessage::Object(entries)))
    }
}

/// What an incoming text is read as.
fn read(text: &str) -> Option<ServerMessage> {
    let message = match serde_json::from_str::<Message>(text) {
        Ok(Message(message)) => message,
        Err(_) => return None,
    };
    ServerMessage::from_wire(&message)
}

// ---------------------------------------------------------------------------
// Outgoing messages
// ---------------------------------------------------------------------------

#[test]
fn create_session_is_bare_type() {
    let json = ClientMessage::CreateSession.to_json();
    assert_eq!(json, r#"{"type":"create-session"}"#);
}

#[test]
fn end_session_carries_no_pin() {
    let json = ClientMessage::EndSession.to_json();
    assert_eq!(json, r#"{"type":"end-session"}"#);
}

#[test]
fn offer_wraps_sdp_payload() {
    let msg = ClientMessage::Offer {
        sdp: SdpPayload {
            kind: "offer".to_string(),
            sdp: "v=0\r\n".to_string(),
        },
    };
    let json = msg.to_json();
    assert_eq!(
        json,
        r#"{"type":"offer","sdp":{"type":"offer","sdp":"v=0\r\n"}}"#
    );
}

#[test]
fn ice_candidate_camelcase_fields() {
    let msg = ClientMessage::IceCandidate {
        candidate: Some(IceCandidateInit {
            candidate: "candidate:1".to_string(),
            sdp_mid: Some("0".to_string()),
            sdp_mline_index: Some(0),
            username_fragment: Some("frag".to_string()),
        }),
    };
    let json = msg.to_json();
    // camelCase on the wire, as in a browser's candidates.
    assert!(json.contains(r#""sdpMid":"0""#), "{json}");
    assert!(json.contains(r#""sdpMLineIndex":0"#), "{json}");
    assert!(json.contains(r#""usernameFragment":"frag""#), "{json}");
}

#[test]
fn ice_candidate_null_is_end_of_candidates() {
    let msg = ClientMessage::IceCandidate { candidate: None };
    let json = msg.to_json();
    // Without a candidate the member is left out.
    assert_eq!(json, r#"{"type":"ice-candidate"}"#);
}

#[test]
fn ice_candidate_in_full() {
    let msg = ClientMessage::IceCandidate {
        candidate: Some(IceCandidateInit {
            candidate: "candidate:1".to_string(),
            sdp_mid: Some("0".to_string()),
            sdp_mline_index: Some(65535),
            username_fragment: Some("frag".to_string()),
        }),
    };
    assert_eq!(
        msg.to_json(),
        r#"{"type":"ice-candidate","candidate":{"candidate":"candidate:1","sdpMid":"0","sdpMLineIndex":65535,"usernameFragment":"frag"}}"#
    );
}

#[test]
fn absent_parts_of_a_candidate_are_left_out() {
    let msg = ClientMessage::IceCandidate {
        candidate: Some(IceCandidateInit::default()),
    };
    assert_eq!(
        msg.to_json(),
        r#"{"type":"ice-candidate","candidate":{"candidate":""}}"#
    );
}

#[test]
fn join_session_carries_the_pin() {
    let msg = ClientMessage::JoinSession {
        pin: "123456".to_string(),
    };
    assert_eq!(msg.to_json(), r#"{"type":"join-session","pin":"123456"}"#);
}

#[test]
fn answer_has_the_shape_of_an_offer() {
    let msg = ClientMessage::Answer {
        sdp: SdpPayload {
            kind: "answer".to_string(),
            sdp: "x".to_string(),
        },
    };
    assert_eq!(
        msg.to_json(),
        r#"{"type":"answer","sdp":{"type":"answer","sdp":"x"}}"#
    );
}

#[test]
fn strings_are_escaped() {
    let msg = ClientMessage::JoinSession {
        pin: "\"\\/\u{8}\t\n\u{c}\r\u{0}\u{1f}\u{7f}\u{e9}\u{2028}\u{1f600}".to_string(),
    };
    assert_eq!(
        msg.to_json(),
        "{\"type\":\"join-session\",\"pin\":\"\\\"\\\\/\\b\\t\\n\\f\\r\\u0000\\u001f\u{7f}\u{e9}\u{2028}\u{1f600}\"}"
    );
}

#[test]
fn every_character_reads_back() {
    for n in 0u32..0x300 {
        let c = char::from_u32(n).unwrap();
        let text: String = ['a', c, 'b'].iter().collect();
        let msg = ClientMessage::JoinSession { pin: text.clone() };
        let back: serde_json::Value = serde_json::from_str(&msg.to_json()).unwrap();
        assert_eq!(back["pin"].as_str(), Some(text.as_str()));
    }
}

// ---------------------------------------------------------------------------
// Incoming messages
// ---------------------------------------------------------------------------

#[test]
fn parses_session_created() {
    let sm = read(r#"{"type":"session-created","pin":"123456"}"#).unwrap();
    match sm {
        ServerMessage::SessionCreated { pin } => assert_eq!(pin, "123456"),
        other => panic!("wrong variant: {other:?}"),
    }
}

#[test]
fn parses_server_error_with_error_field() {
    let sm = read(r#"{"type":"error","error":"invalid_pin"}"#).unwrap();
    match sm {
        ServerMessage::Error { error } => assert_eq!(error, "invalid_pin"),
        other => panic!("wrong variant: {other:?}"),
    }
}

#[test]
fn parses_viewer_joined_and_peer_disconnected_bare() {
    assert!(matches!(
        read(r#"{"type":"viewer-joined"}"#).unwrap(),
        ServerMessage::ViewerJoined
    ));
    assert!(matches!(
        read(r#"{"type":"peer-disconnected"}"#).unwrap(),
        ServerMessage::PeerDisconnected
    ));
    assert!(matches!(
        read(r#"{"type":"session-expired"}"#).unwrap(),
        ServerMessage::SessionExpired
    ));
}

#[test]
fn parses_answer_with_nested_sdp() {
    let sm = read(r#"{"type":"answer","sdp":{"type":"answer","sdp":"v=0\r\n"}}"#).unwrap();
    match sm {
        ServerMessage::Answer { sdp } => {
            assert_eq!(sdp.kind, "answer");
            assert!(sdp.sdp.starts_with("v=0"));
        }
        other => panic!("wrong variant: {other:?}"),
    }
}

#[test]
fn parses_ice_candidate_with_browser_camelcase() {
    let sm = read(
        r#"{"type":"ice-candidate","candidate":{"candidate":"candidate:foo","sdpMid":"0","sdpMLineIndex":0,"usernameFragment":"u"}}"#,
    )
    .unwrap();
    match sm {
        ServerMessage::IceCandidate { candidate: Some(c) } => {
            assert_eq!(c.candidate, "candidate:foo");
            assert_eq!(c.sdp_mid.as_deref(), Some("0"));
            assert_eq!(c.sdp_mline_index, Some(0));
            assert_eq!(c.username_fragment.as_deref(), Some("u"));
        }
        other => panic!("wrong variant: {other:?}"),
    }
}

#[test]
fn parses_ice_candidate_null() {
    let sm = read(r#"{"type":"ice-candidate","candidate":null}"#).unwrap();
    assert!(matches!(
        sm,
        ServerMessage::IceCandidate { candidate: None }
    ));
}

#[test]
fn parses_the_other_types() {
    assert!(matches!(
        read(r#"{"type":"session-joined"}"#),
        Some(ServerMessage::SessionJoined)
    ));
    match read(r#"{"sdp":{"sdp":"s","type":"offer"},"type":"offer"}"#) {
        Some(ServerMessage::Offer { sdp }) => {
            assert_eq!(sdp.kind, "offer");
            assert_eq!(sdp.sdp, "s");
        }
        other => panic!("wrong variant: {other:?}"),
    }
    assert!(matches!(
        read(r#"{"type":"ice-candidate"}"#),
        Some(ServerMessage::IceCandidate { candidate: None })
    ));
}

#[test]
fn refuses_what_is_no_message() {
    for text in [
        "",
        "not json",
        "17",
        "\"viewer-joined\"",
        "null",
        "{}",
        r#"{"type":null}"#,
        r#"{"type":"ViewerJoined"}"#,
        r#"{"type":"viewer_joined"}"#,
        r#"{"type":"viewer-joined","type":"viewer-joined"}"#,
        r#"{"type":"viewer-joined"} x"#,
        r#"{"type":"session-created"}"#,
        r#"{"type":"session-created","pin":123456}"#,
        r#"{"type":"session-created","pin":null}"#,
        r#"{"type":"session-created","pin":"1","pin":"1"}"#,
        r#"{"type":"error","message":"x"}"#,
        r#"{"type":"answer"}"#,
        r#"{"type":"answer","sdp":null}"#,
        r#"{"type":"answer","sdp":"v=0"}"#,
        r#"{"type":"answer","sdp":{"type":"answer"}}"#,
        r#"{"type":"answer","sdp":{"type":"answer","sdp":"a","sdp":"a"}}"#,
        r#"{"type":"ice-candidate","candidate":"candidate:1"}"#,
        r#"{"type":"ice-candidate","candidate":{}}"#,
        r#"{"type":"ice-candidate","candidate":{"candidate":"c","sdpMLineIndex":65536}}"#,
        r#"{"type":"ice-candidate","candidate":{"candidate":"c","sdpMLineIndex":-1}}"#,
        r#"{"type":"ice-candidate","candidate":{"candidate":"c","sdpMLineIndex":0.0}}"#,
        r#"{"type":"ice-candidate","candidate":{"candidate":"c","sdpMid":0}}"#,
        "[]",
        r#"["viewer-joined",1]"#,
        r#"["session-created"]"#,
        r#"["session-created","1","2"]"#,
        r#"["answer",["answer"]]"#,
        r#"["answer",["answer","s","t"]]"#,
    ] {
        assert!(read(text).is_none(), "{text}");
    }
}

#[test]
fn unknown_members_make_no_difference() {
    assert!(matches!(
        read(r#"{"x":1,"type":"viewer-joined","y":{"type":"z"},"y":[[]]}"#),
        Some(ServerMessage::ViewerJoined)
    ));
    match read(r#"{"at":0,"type":"session-created","pin":"9","Pin":7}"#) {
        Some(ServerMessage::SessionCreated { pin }) => assert_eq!(pin, "9"),
        other => panic!("wrong variant: {other:?}"),
    }
    match read(r#"{"type":"answer","sdp":{"type":"answer","sdp":"s","a":{"b":1}}}"#) {
        Some(ServerMessage::Answer { sdp }) => assert_eq!(sdp.sdp, "s"),
        other => panic!("wrong variant: {other:?}"),
    }
}

#[test]
fn null_parts_of_a_candidate_are_absent_ones() {
    match read(
        r#"{"type":"ice-candidate","candidate":{"candidate":"c","sdpMid":null,"sdpMLineIndex":null}}"#,
    ) {
        Some(ServerMessage::IceCandidate { candidate: Some(c) }) => {
            assert_eq!(c.candidate, "c");
            assert_eq!(c.sdp_mid, None);
            assert_eq!(c.sdp_mline_index, None);
            assert_eq!(c.username_fragment, None);
        }
        other => panic!("wrong variant: {other:?}"),
    }
}

#[test]
fn lists_are_read_by_position() {
    assert!(matches!(
        read(r#"["viewer-joined"]"#),
        Some(ServerMessage::ViewerJoined)
    ));
    match read(r#"["session-created","42"]"#) {
        Some(ServerMessage::SessionCreated { pin }) => assert_eq!(pin, "42"),
        other => panic!("wrong variant: {other:?}"),
    }
    match read(r#"["answer",["answer","s"]]"#) {
        Some(ServerMessage::Answer { sdp }) => {
            assert_eq!(sdp.kind, "answer");
            assert_eq!(sdp.sdp, "s");
        }
        other => panic!("wrong variant: {other:?}"),
    }
    match read(r#"["ice-candidate",["c","m",3]]"#) {
        Some(ServerMessage::IceCandidate { candidate: Some(c) }) => {
            assert_eq!(c.candidate, "c");
            assert_eq!(c.sdp_mid.as_deref(), Some("m"));
            assert_eq!(c.sdp_mline_index, Some(3));
            assert_eq!(c.username_fragment, None);
        }
        other => panic!("wrong variant: {other:?}"),
    }
    assert!(matches!(
        read(r#"["ice-candidate"]"#),
        Some(ServerMessage::IceCandidate { candidate: None })
    ));
}
