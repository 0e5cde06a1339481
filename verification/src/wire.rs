//! The JSON wire format of the signaling protocol.
//!
//! Outgoing messages are written by [`ClientMessage::to_json`]. Incoming
//! JSON reaches the library as a [`WireMessage`], a JSON value cut down to
//! what the protocol can give a meaning to, and is read by
//! [`ServerMessage::from_wire`].
use crate::messages::{
    optional_text, CandidateText, ClientMessage, IceCandidateInit, SdpPayload, SdpText,
    ServerMessage, ServerText,
};
use crate::text::{decimal, decimal_text, same_text};
use vstd::prelude::*;

verus! {

// ---------------------------------------------------------------------------
// Writing
// ---------------------------------------------------------------------------

/// The hexadecimal digit that stands for `d`.
pub open spec fn hex_digit(d: int) -> char {
    "0123456789abcdef"@[d]
}

/// How a character is written inside a JSON string.
pub open spec fn escaped(c: char) -> Seq<char> {
    if c == '"' {
        seq!['\\', '"']
    } else if c == '\\' {
        seq!['\\', '\\']
    } else if c == '\u{8}' {
        seq!['\\', 'b']
    } else if c == '\t' {
        seq!['\\', 't']
    } else if c == '\n' {
        seq!['\\', 'n']
    } else if c == '\u{c}' {
        seq!['\\', 'f']
    } else if c == '\r' {
        seq!['\\', 'r']
    } else if (c as u32) < 0x20 {
        seq!['\\', 'u', '0', '0', hex_digit(c as int / 16), hex_digit(c as int % 16)]
    } else {
        seq![c]
    }
}

/// The characters of `s`, each as it is written inside a JSON string.
pub open spec fn escaped_text(s: Seq<char>) -> Seq<char>
    decreases s.len(),
{
    if s.len() == 0 {
        Seq::empty()
    } else {
        escaped_text(s.drop_last()) + escaped(s.last())
    }
}

/// The JSON string that stands for `s`.
pub open spec fn quoted(s: Seq<char>) -> Seq<char> {
    seq!['"'] + escaped_text(s) + seq!['"']
}

/// Calls `serde_json::to_string` on a string. Claimed of it: writing a string
/// never fails, and what it writes is the string in quotes, with quote,
/// backslash and the characters below U+0020 escaped and all else as it is.
#[verifier::external_body]
fn quote(s: &str) -> (text: String)
    ensures
        text@ == quoted(s@),
{
    serde_json::to_string(s).unwrap()
}

/// The number that a hexadecimal digit stands for.
pub open spec fn hex_value(c: char) -> int {
    if c as int >= 'a' as int {
        c as int - 'a' as int + 10
    } else {
        c as int - '0' as int
    }
}

/// What the inside of a JSON string stands for, read from the front.
pub open spec fn unescaped(t: Seq<char>) -> Seq<char>
    decreases t.len(),
{
    if t.len() == 0 {
        Seq::empty()
    } else if t[0] != '\\' || t.len() == 1 {
        seq![t[0]] + unescaped(t.skip(1))
    } else if t[1] == 'u' && t.len() >= 6 {
        seq![(16 * hex_value(t[4]) + hex_value(t[5])) as char] + unescaped(t.skip(6))
    } else {
        let c = if t[1] == 'b' {
            '\u{8}'
        } else if t[1] == 't' {
            '\t'
        } else if t[1] == 'n' {
            '\n'
        } else if t[1] == 'f' {
            '\u{c}'
        } else if t[1] == 'r' {
            '\r'
        } else {
            t[1]
        };
        seq![c] + unescaped(t.skip(2))
    }
}

/// A text is escaped character by character, from the front as from the back.
pub proof fn escaped_front(s: Seq<char>)
    requires
        s.len() > 0,
    ensures
        escaped_text(s) == escaped(s[0]) + escaped_text(s.drop_first()),
    decreases s.len(),
{
    if s.len() == 1 {
        assert(s.drop_last() =~= Seq::empty());
        assert(s.drop_first() =~= Seq::empty());
        assert(escaped_text(s.drop_last()) =~= Seq::empty());
        assert(escaped_text(s) =~= escaped(s[0]) + escaped_text(s.drop_first()));
    } else {
        escaped_front(s.drop_last());
        assert(s.drop_last().drop_first() =~= s.drop_first().drop_last());
        assert(escaped_text(s) =~= escaped(s[0]) + escaped_text(s.drop_first()));
    }
}

/// One escaped character is read back as itself, whatever follows it.
proof fn escaped_reads_back(c: char, rest: Seq<char>)
    ensures
        unescaped(escaped(c) + rest) == seq![c] + unescaped(rest),
{
    let t = escaped(c) + rest;
    reveal_strlit("0123456789abcdef");
    assert(t.skip(escaped(c).len() as int) =~= rest);
    if escaped(c).len() == 6 {
        let high = c as int / 16;
        let low = c as int % 16;
        assert(t[4] == hex_digit(high) && t[5] == hex_digit(low));
        assert(hex_value(hex_digit(high)) == high);
        assert(hex_value(hex_digit(low)) == low);
    }
}

/// No text is lost or confused with another on its way through the wire: what
/// stands between the quotes reads back as the text.
pub proof fn quoting_reads_back(s: Seq<char>)
    ensures
        quoted(s)[0] == '"',
        quoted(s).last() == '"',
        unescaped(quoted(s).subrange(1, quoted(s).len() - 1)) == s,
{
    assert(quoted(s).subrange(1, quoted(s).len() - 1) =~= escaped_text(s));
    escaped_text_reads_back(s);
}

proof fn escaped_text_reads_back(s: Seq<char>)
    ensures
        unescaped(escaped_text(s)) == s,
    decreases s.len(),
{
    if s.len() > 0 {
        escaped_front(s);
        escaped_text_reads_back(s.drop_first());
        escaped_reads_back(s[0], escaped_text(s.drop_first()));
        assert(seq![s[0]] + s.drop_first() =~= s);
    }
}

/// The JSON object that stands for a session description.
pub open spec fn sdp_json(sdp: SdpText) -> Seq<char> {
    "{\"type\":"@ + quoted(sdp.kind) + ",\"sdp\":"@ + quoted(sdp.sdp) + "}"@
}

/// A member of an object that is left out when there is no value.
pub open spec fn text_member(name: Seq<char>, value: Option<Seq<char>>) -> Seq<char> {
    match value {
        Some(text) => name + quoted(text),
        None => Seq::empty(),
    }
}

/// The JSON object that stands for a candidate: absent parts are left out.
pub open spec fn candidate_json(c: CandidateText) -> Seq<char> {
    "{\"candidate\":"@ + quoted(c.candidate) + text_member(",\"sdpMid\":"@, c.sdp_mid) + (
    match c.sdp_mline_index {
        Some(n) => ",\"sdpMLineIndex\":"@ + decimal(n as nat),
        None => Seq::empty(),
    }) + text_member(",\"usernameFragment\":"@, c.username_fragment) + "}"@
}

/// The JSON text of an outgoing message.
pub open spec fn client_json(message: ClientMessage) -> Seq<char> {
    match message {
        ClientMessage::CreateSession => "{\"type\":\"create-session\"}"@,
        ClientMessage::JoinSession { pin } => "{\"type\":\"join-session\",\"pin\":"@ + quoted(pin@)
            + "}"@,
        ClientMessage::Offer { sdp } => "{\"type\":\"offer\",\"sdp\":"@ + sdp_json(sdp@) + "}"@,
        ClientMessage::Answer { sdp } => "{\"type\":\"answer\",\"sdp\":"@ + sdp_json(sdp@) + "}"@,
        ClientMessage::IceCandidate { candidate: Some(c) } => "{\"type\":\"ice-candidate\",\"candidate\":"@
            + candidate_json(c@) + "}"@,
        ClientMessage::IceCandidate { candidate: None } => "{\"type\":\"ice-candidate\"}"@,
        ClientMessage::EndSession => "{\"type\":\"end-session\"}"@,
    }
}

fn sdp_to_json(sdp: &SdpPayload) -> (text: String)
    ensures
        text@ == sdp_json(sdp@),
{
    let text = "{\"type\":".to_owned().concat(quote(sdp.kind.as_str()).as_str());
    text.concat(",\"sdp\":").concat(quote(sdp.sdp.as_str()).as_str()).concat("}")
}

fn with_text_member(text: String, name: &str, value: &Option<String>) -> (longer: String)
    ensures
        longer@ == text@ + text_member(name@, optional_text(*value)),
{
    match value {
        Some(s) => {
            let longer = text.concat(name).concat(quote(s.as_str()).as_str());
            assert(longer@ =~= text@ + (name@ + quoted(s@)));
            longer
        },
        None => {
            assert(text@ =~= text@ + Seq::<char>::empty());
            text
        },
    }
}

fn candidate_to_json(c: &IceCandidateInit) -> (text: String)
    ensures
        text@ == candidate_json(c@),
{
    let text = "{\"candidate\":".to_owned().concat(quote(c.candidate.as_str()).as_str());
    let text = with_text_member(text, ",\"sdpMid\":", &c.sdp_mid);
    let ghost before = text@;
    let text = match c.sdp_mline_index {
        Some(n) => text.concat(",\"sdpMLineIndex\":").concat(decimal_text(n as u64).as_str()),
        None => text,
    };
    assert(text@ =~= before + (match c.sdp_mline_index {
        Some(n) => ",\"sdpMLineIndex\":"@ + decimal(n as nat),
        None => Seq::empty(),
    }));
    with_text_member(text, ",\"usernameFragment\":", &c.username_fragment).concat("}")
}

impl ClientMessage {
    /// The JSON text that goes over the wire.
    pub fn to_json(&self) -> (text: String)
        ensures
            text@ == client_json(*self),
    {
        match self {
            ClientMessage::CreateSession => "{\"type\":\"create-session\"}".to_owned(),
            ClientMessage::JoinSession { pin } => "{\"type\":\"join-session\",\"pin\":".to_owned().concat(
                quote(pin.as_str()).as_str(),
            ).concat("}"),
            ClientMessage::Offer { sdp } => "{\"type\":\"offer\",\"sdp\":".to_owned().concat(
                sdp_to_json(sdp).as_str(),
            ).concat("}"),
            ClientMessage::Answer { sdp } => "{\"type\":\"answer\",\"sdp\":".to_owned().concat(
                sdp_to_json(sdp).as_str(),
            ).concat("}"),
            ClientMessage::IceCandidate { candidate } => match candidate {
                Some(c) => "{\"type\":\"ice-candidate\",\"candidate\":".to_owned().concat(
                    candidate_to_json(c).as_str(),
                ).concat("}"),
                None => "{\"type\":\"ice-candidate\"}".to_owned(),
            },
            ClientMessage::EndSession => "{\"type\":\"end-session\"}".to_owned(),
        }
    }
}


// ---------------------------------------------------------------------------
// Reading
// ---------------------------------------------------------------------------

/// A JSON value as far as it matters where a plain value is expected.
#[derive(Debug)]
pub enum WireScalar {
    Null,
    Text(String),
    /// A number without sign, fraction or exponent that fits in 64 bits.
    Whole(u64),
    /// Any other JSON value.
    Other,
}

/// A JSON value as far as it matters inside a message.
#[derive(Debug)]
pub enum WireValue {
    Scalar(WireScalar),
    /// The members in the order in which they came, repeated names included.
    Object(Vec<(String, WireScalar)>),
    List(Vec<WireScalar>),
}

/// A JSON object or list as far as it matters as a message.
#[derive(Debug)]
pub enum WireMessage {
    /// The members in the order in which they came, repeated names included.
    Object(Vec<(String, WireValue)>),
    /// The message as a list: its type, then its parts by position.
    List(Vec<WireValue>),
}

/// What an object holds under a name.
pub enum Lookup<T> {
    Absent,
    Once(T),
    Repeated,
}

/// The values that stand under `name`, in order.
pub open spec fn values_under<V>(entries: Seq<(String, V)>, name: Seq<char>) -> Seq<V>
    decreases entries.len(),
{
    if entries.len() == 0 {
        Seq::empty()
    } else {
        let before = values_under(entries.drop_last(), name);
        if entries.last().0@ == name {
            before.push(entries.last().1)
        } else {
            before
        }
    }
}

/// What the object with these members holds under `name`.
pub open spec fn lookup<V>(entries: Seq<(String, V)>, name: Seq<char>) -> Lookup<V> {
    let values = values_under(entries, name);
    if values.len() == 0 {
        Lookup::Absent
    } else if values.len() == 1 {
        Lookup::Once(values[0])
    } else {
        Lookup::Repeated
    }
}

/// Looks `name` up among the members of an object.
fn look_up<'a, V>(entries: &'a Vec<(String, V)>, name: &str) -> (found: Lookup<&'a V>)
    ensures
        match found {
            Lookup::Absent => lookup(entries@, name@) == Lookup::<V>::Absent,
            Lookup::Once(v) => lookup(entries@, name@) == Lookup::Once(*v),
            Lookup::Repeated => lookup(entries@, name@) == Lookup::<V>::Repeated,
        },
{
    let mut found: Option<&V> = None;
    let mut repeated = false;
    let mut i: usize = 0;
    while i < entries.len()
        invariant
            i <= entries.len(),
            !repeated ==> values_under(entries@.take(i as int), name@) == (match found {
                Some(v) => seq![*v],
                None => Seq::empty(),
            }),
            repeated ==> values_under(entries@.take(i as int), name@).len() > 1,
        decreases entries.len() - i,
    {
        assert(entries@.take(i + 1).drop_last() =~= entries@.take(i as int));
        if same_text(&entries[i].0, name) {
            match found {
                Some(_) => {
                    repeated = true;
                },
                None => {
                    found = Some(&entries[i].1);
                },
            }
        }
        i = i + 1;
    }
    assert(entries@.take(i as int) =~= entries@);
    if repeated {
        Lookup::Repeated
    } else {
        match found {
            Some(v) => Lookup::Once(v),
            None => Lookup::Absent,
        }
    }
}

/// What a list holds at `position`.
pub open spec fn item_at<V>(items: Seq<V>, position: int) -> Lookup<V> {
    if 0 <= position < items.len() {
        Lookup::Once(items[position])
    } else {
        Lookup::Absent
    }
}

fn look_at<V>(items: &Vec<V>, position: usize) -> (found: Lookup<&V>)
    ensures
        match found {
            Lookup::Absent => item_at(items@, position as int) == Lookup::<V>::Absent,
            Lookup::Once(v) => item_at(items@, position as int) == Lookup::Once(*v),
            Lookup::Repeated => false,
        },
{
    if position < items.len() {
        Lookup::Once(&items[position])
    } else {
        Lookup::Absent
    }
}

/// A required string.
pub open spec fn required_text(found: Lookup<WireScalar>) -> Option<Seq<char>> {
    match found {
        Lookup::Once(WireScalar::Text(text)) => Some(text@),
        _ => None,
    }
}

/// A string that may be absent or null; the outer `None` refuses the value.
pub open spec fn optional_text_value(found: Lookup<WireScalar>) -> Option<Option<Seq<char>>> {
    match found {
        Lookup::Absent | Lookup::Once(WireScalar::Null) => Some(None),
        Lookup::Once(WireScalar::Text(text)) => Some(Some(text@)),
        _ => None,
    }
}

/// A 16-bit number that may be absent or null; the outer `None` refuses the
/// value.
pub open spec fn optional_u16_value(found: Lookup<WireScalar>) -> Option<Option<u16>> {
    match found {
        Lookup::Absent | Lookup::Once(WireScalar::Null) => Some(None),
        Lookup::Once(WireScalar::Whole(n)) => if n <= u16::MAX {
            Some(Some(n as u16))
        } else {
            None
        },
        _ => None,
    }
}

fn read_text(found: Lookup<&WireScalar>) -> (text: Option<String>)
    ensures
        optional_text(text) == required_text(owned(found)),
{
    match found {
        Lookup::Once(WireScalar::Text(text)) => Some(text.clone()),
        _ => None,
    }
}

/// The looked-up value itself instead of a reference to it.
pub open spec fn owned<V>(found: Lookup<&V>) -> Lookup<V> {
    match found {
        Lookup::Absent => Lookup::Absent,
        Lookup::Once(v) => Lookup::Once(*v),
        Lookup::Repeated => Lookup::Repeated,
    }
}

fn read_optional_text(found: Lookup<&WireScalar>) -> (text: Option<Option<String>>)
    ensures
        match text {
            Some(t) => optional_text_value(owned(found)) == Some(optional_text(t)),
            None => optional_text_value(owned(found)) is None,
        },
{
    match found {
        Lookup::Absent => Some(None),
        Lookup::Once(WireScalar::Null) => Some(None),
        Lookup::Once(WireScalar::Text(text)) => Some(Some(text.clone())),
        _ => None,
    }
}

fn read_optional_u16(found: Lookup<&WireScalar>) -> (number: Option<Option<u16>>)
    ensures
        number == optional_u16_value(owned(found)),
{
    match found {
        Lookup::Absent => Some(None),
        Lookup::Once(WireScalar::Null) => Some(None),
        Lookup::Once(WireScalar::Whole(n)) => if *n <= 65535 {
            Some(Some(*n as u16))
        } else {
            None
        },
        _ => None,
    }
}

/// The part `name` of a nested value, which is number `position` where the
/// value is a list.
pub open spec fn part(value: WireValue, name: Seq<char>, position: int) -> Lookup<WireScalar> {
    match value {
        WireValue::Object(entries) => lookup(entries@, name),
        WireValue::List(items) => item_at(items@, position),
        WireValue::Scalar(_) => Lookup::Absent,
    }
}

fn look_up_part<'a>(value: &'a WireValue, name: &str, position: usize) -> (found: Lookup<
    &'a WireScalar,
>)
    ensures
        owned(found) == part(*value, name@, position as int),
{
    match value {
        WireValue::Object(entries) => look_up(entries, name),
        WireValue::List(items) => look_at(items, position),
        WireValue::Scalar(_) => Lookup::Absent,
    }
}

/// Whether a nested value can be a record of `parts` parts: it is an object,
/// or a list of no more items.
pub open spec fn record_shaped(value: WireValue, parts: int) -> bool {
    match value {
        WireValue::Object(_) => true,
        WireValue::List(items) => items@.len() <= parts,
        WireValue::Scalar(_) => false,
    }
}

fn is_record_shaped(value: &WireValue, parts: usize) -> (shaped: bool)
    ensures
        shaped == record_shaped(*value, parts as int),
{
    match value {
        WireValue::Object(_) => true,
        WireValue::List(items) => items.len() <= parts,
        WireValue::Scalar(_) => false,
    }
}

/// The session description that a nested value stands for: both parts are
/// required.
pub open spec fn sdp_value(value: WireValue) -> Option<SdpText> {
    if !record_shaped(value, 2) {
        None
    } else {
        match (
            required_text(part(value, "type"@, 0)),
            required_text(part(value, "sdp"@, 1)),
        ) {
            (Some(kind), Some(sdp)) => Some(SdpText { kind, sdp }),
            _ => None,
        }
    }
}

fn read_sdp(value: &WireValue) -> (sdp: Option<SdpPayload>)
    ensures
        match sdp {
            Some(payload) => sdp_value(*value) == Some(payload@),
            None => sdp_value(*value) is None,
        },
{
    if !is_record_shaped(value, 2) {
        return None;
    }
    let kind = read_text(look_up_part(value, "type", 0));
    let sdp = read_text(look_up_part(value, "sdp", 1));
    match (kind, sdp) {
        (Some(kind), Some(sdp)) => Some(SdpPayload { kind, sdp }),
        _ => None,
    }
}

/// The candidate that a nested value stands for: only its line is required.
pub open spec fn candidate_value(value: WireValue) -> Option<CandidateText> {
    if !record_shaped(value, 4) {
        None
    } else {
        match (
            required_text(part(value, "candidate"@, 0)),
            optional_text_value(part(value, "sdpMid"@, 1)),
            optional_u16_value(part(value, "sdpMLineIndex"@, 2)),
            optional_text_value(part(value, "usernameFragment"@, 3)),
        ) {
            (Some(candidate), Some(sdp_mid), Some(sdp_mline_index), Some(username_fragment)) => Some(
                CandidateText { candidate, sdp_mid, sdp_mline_index, username_fragment },
            ),
            _ => None,
        }
    }
}

fn read_candidate(value: &WireValue) -> (candidate: Option<IceCandidateInit>)
    ensures
        match candidate {
            Some(init) => candidate_value(*value) == Some(init@),
            None => candidate_value(*value) is None,
        },
{
    if !is_record_shaped(value, 4) {
        return None;
    }
    let line = read_text(look_up_part(value, "candidate", 0));
    let mid = read_optional_text(look_up_part(value, "sdpMid", 1));
    let index = read_optional_u16(look_up_part(value, "sdpMLineIndex", 2));
    let fragment = read_optional_text(look_up_part(value, "usernameFragment", 3));
    match (line, mid, index, fragment) {
        (Some(candidate), Some(sdp_mid), Some(sdp_mline_index), Some(username_fragment)) => Some(
            IceCandidateInit { candidate, sdp_mid, sdp_mline_index, username_fragment },
        ),
        _ => None,
    }
}

/// The type of a message: the only member `type` of an object, or the first
/// item of a list, and a string.
pub open spec fn message_type(message: WireMessage) -> Option<Seq<char>> {
    let found = match message {
        WireMessage::Object(entries) => lookup(entries@, "type"@),
        WireMessage::List(items) => item_at(items@, 0),
    };
    match found {
        Lookup::Once(WireValue::Scalar(WireScalar::Text(tag))) => Some(tag@),
        _ => None,
    }
}

/// The part `name` of a message that has no other: in a list, what follows
/// the type.
pub open spec fn message_part(message: WireMessage, name: Seq<char>) -> Lookup<WireValue> {
    match message {
        WireMessage::Object(entries) => lookup(entries@, name),
        WireMessage::List(items) => item_at(items@, 1),
    }
}

/// Whether a message has room for no more than `parts` parts beside its type.
/// An object may hold any members; those that nobody asks for are ignored.
pub open spec fn message_shaped(message: WireMessage, parts: int) -> bool {
    match message {
        WireMessage::Object(_) => true,
        WireMessage::List(items) => items@.len() <= 1 + parts,
    }
}

/// A required string in a message.
pub open spec fn text_part(message: WireMessage, name: Seq<char>) -> Option<Seq<char>> {
    match message_part(message, name) {
        Lookup::Once(WireValue::Scalar(scalar)) => required_text(Lookup::Once(scalar)),
        _ => None,
    }
}

/// A required session description in a message.
pub open spec fn sdp_part(message: WireMessage) -> Option<SdpText> {
    match message_part(message, "sdp"@) {
        Lookup::Once(value) => sdp_value(value),
        _ => None,
    }
}

/// A candidate in a message, which may be absent or null; the outer `None`
/// refuses the message.
pub open spec fn candidate_part(message: WireMessage) -> Option<Option<CandidateText>> {
    match message_part(message, "candidate"@) {
        Lookup::Absent | Lookup::Once(WireValue::Scalar(WireScalar::Null)) => Some(None),
        Lookup::Once(value) => match candidate_value(value) {
            Some(candidate) => Some(Some(candidate)),
            None => None,
        },
        Lookup::Repeated => None,
    }
}

/// The message that a JSON text stands for; `None` where it is none.
pub open spec fn server_message(message: WireMessage) -> Option<ServerText> {
    match message_type(message) {
        None => None,
        Some(tag) => if tag == "session-joined"@ {
            bare(message, ServerText::SessionJoined)
        } else if tag == "viewer-joined"@ {
            bare(message, ServerText::ViewerJoined)
        } else if tag == "peer-disconnected"@ {
            bare(message, ServerText::PeerDisconnected)
        } else if tag == "session-expired"@ {
            bare(message, ServerText::SessionExpired)
        } else if !message_shaped(message, 1) {
            None
        } else if tag == "session-created"@ {
            match text_part(message, "pin"@) {
                Some(pin) => Some(ServerText::SessionCreated { pin }),
                None => None,
            }
        } else if tag == "offer"@ {
            match sdp_part(message) {
                Some(sdp) => Some(ServerText::Offer { sdp }),
                None => None,
            }
        } else if tag == "answer"@ {
            match sdp_part(message) {
                Some(sdp) => Some(ServerText::Answer { sdp }),
                None => None,
            }
        } else if tag == "ice-candidate"@ {
            match candidate_part(message) {
                Some(candidate) => Some(ServerText::IceCandidate { candidate }),
                None => None,
            }
        } else if tag == "error"@ {
            match text_part(message, "error"@) {
                Some(error) => Some(ServerText::Error { error }),
                None => None,
            }
        } else {
            None
        },
    }
}

/// A message that consists of its type alone.
pub open spec fn bare(message: WireMessage, read: ServerText) -> Option<ServerText> {
    if message_shaped(message, 0) {
        Some(read)
    } else {
        None
    }
}


fn read_type(message: &WireMessage) -> (tag: Option<&String>)
    ensures
        match tag {
            Some(t) => message_type(*message) == Some(t@),
            None => message_type(*message) is None,
        },
{
    let found = match message {
        WireMessage::Object(entries) => look_up(entries, "type"),
        WireMessage::List(items) => look_at(items, 0),
    };
    match found {
        Lookup::Once(WireValue::Scalar(WireScalar::Text(tag))) => Some(tag),
        _ => None,
    }
}

fn look_up_message_part<'a>(message: &'a WireMessage, name: &str) -> (found: Lookup<&'a WireValue>)
    ensures
        owned(found) == message_part(*message, name@),
{
    match message {
        WireMessage::Object(entries) => look_up(entries, name),
        WireMessage::List(items) => look_at(items, 1),
    }
}

fn is_message_shaped(message: &WireMessage, parts: usize) -> (shaped: bool)
    requires
        parts <= 1,
    ensures
        shaped == message_shaped(*message, parts as int),
{
    match message {
        WireMessage::Object(_) => true,
        WireMessage::List(items) => items.len() <= 1 + parts,
    }
}

fn read_text_part(message: &WireMessage, name: &str) -> (text: Option<String>)
    ensures
        optional_text(text) == text_part(*message, name@),
{
    match look_up_message_part(message, name) {
        Lookup::Once(WireValue::Scalar(scalar)) => read_text(Lookup::Once(scalar)),
        _ => None,
    }
}

fn read_sdp_part(message: &WireMessage) -> (sdp: Option<SdpPayload>)
    ensures
        match sdp {
            Some(payload) => sdp_part(*message) == Some(payload@),
            None => sdp_part(*message) is None,
        },
{
    match look_up_message_part(message, "sdp") {
        Lookup::Once(value) => read_sdp(value),
        _ => None,
    }
}

fn read_candidate_part(message: &WireMessage) -> (candidate: Option<Option<IceCandidateInit>>)
    ensures
        match candidate {
            Some(Some(init)) => candidate_part(*message) == Some(Some(init@)),
            Some(None) => candidate_part(*message) == Some(None::<CandidateText>),
            None => candidate_part(*message) is None,
        },
{
    match look_up_message_part(message, "candidate") {
        Lookup::Absent => Some(None),
        Lookup::Once(WireValue::Scalar(WireScalar::Null)) => Some(None),
        Lookup::Once(value) => match read_candidate(value) {
            Some(init) => Some(Some(init)),
            None => None,
        },
        Lookup::Repeated => None,
    }
}

impl ServerMessage {
    /// Reads an incoming message. `None` where it is not one of the protocol:
    /// no type or an unknown one, a part that is missing, repeated or of the
    /// wrong kind, or a list with too many items. Members of an object that
    /// the protocol does not know are ignored.
    pub fn from_wire(message: &WireMessage) -> (read: Option<ServerMessage>)
        ensures
            match read {
                Some(m) => server_message(*message) == Some(m@),
                None => server_message(*message) is None,
            },
    {
        let tag = match read_type(message) {
            Some(tag) => tag,
            None => {
                return None;
            },
        };
        let known_bare = if same_text(tag, "session-joined") {
            Some(ServerMessage::SessionJoined)
        } else if same_text(tag, "viewer-joined") {
            Some(ServerMessage::ViewerJoined)
        } else if same_text(tag, "peer-disconnected") {
            Some(ServerMessage::PeerDisconnected)
        } else if same_text(tag, "session-expired") {
            Some(ServerMessage::SessionExpired)
        } else {
            None
        };
        if known_bare.is_some() {
            return if is_message_shaped(message, 0) {
                known_bare
            } else {
                None
            };
        }
        if !is_message_shaped(message, 1) {
            return None;
        }
        if same_text(tag, "session-created") {
            match read_text_part(message, "pin") {
                Some(pin) => Some(ServerMessage::SessionCreated { pin }),
                None => None,
            }
        } else if same_text(tag, "offer") {
            match read_sdp_part(message) {
                Some(sdp) => Some(ServerMessage::Offer { sdp }),
                None => None,
            }
        } else if same_text(tag, "answer") {
            match read_sdp_part(message) {
                Some(sdp) => Some(ServerMessage::Answer { sdp }),
                None => None,
            }
        } else if same_text(tag, "ice-candidate") {
            match read_candidate_part(message) {
                Some(candidate) => Some(ServerMessage::IceCandidate { candidate }),
                None => None,
            }
        } else if same_text(tag, "error") {
            match read_text_part(message, "error") {
                Some(error) => Some(ServerMessage::Error { error }),
                None => None,
            }
        } else {
            None
        }
    }
}

/// A member under another name does not change what stands under `name`.
proof fn other_members_do_not_count<V>(
    entries: Seq<(String, V)>,
    at: int,
    member: (String, V),
    name: Seq<char>,
)
    requires
        0 <= at <= entries.len(),
        member.0@ != name,
    ensures
        lookup(entries.insert(at, member), name) == lookup(entries, name),
        values_under(entries.insert(at, member), name) == values_under(entries, name),
    decreases entries.len(),
{
    let longer = entries.insert(at, member);
    if at == entries.len() {
        assert(longer.drop_last() =~= entries);
    } else {
        other_members_do_not_count(entries.drop_last(), at, member, name);
        assert(longer.drop_last() =~= entries.drop_last().insert(at, member));
        assert(longer.last() == entries.last());
    }
}

/// Members that the protocol does not know change nothing: a message reads
/// the same with one more of them, wherever it stands.
pub proof fn unknown_members_are_ignored(
    entries: Vec<(String, WireValue)>,
    at: int,
    member: (String, WireValue),
    longer: Vec<(String, WireValue)>,
)
    requires
        0 <= at <= entries@.len(),
        longer@ == entries@.insert(at, member),
        member.0@ != "type"@,
        member.0@ != "pin"@,
        member.0@ != "sdp"@,
        member.0@ != "candidate"@,
        member.0@ != "error"@,
    ensures
        server_message(WireMessage::Object(longer)) == server_message(WireMessage::Object(entries)),
{
    other_members_do_not_count(entries@, at, member, "type"@);
    other_members_do_not_count(entries@, at, member, "pin"@);
    other_members_do_not_count(entries@, at, member, "sdp"@);
    other_members_do_not_count(entries@, at, member, "candidate"@);
    other_members_do_not_count(entries@, at, member, "error"@);
}

} // verus!
