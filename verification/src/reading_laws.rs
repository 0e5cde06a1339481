//! What holds of the messages that the host reads: a message is read as what
//! its members say, whatever stands beside them, and only as that.
use crate::messages::{CandidateText, SdpText, ServerText};
use crate::wire::{
    candidate_value, item_at, lookup, sdp_value, server_message, values_under, Lookup, WireMessage,
    WireScalar, WireValue,
};
use vstd::prelude::*;

verus! {

// ---------------------------------------------------------------------------
// Members
// ---------------------------------------------------------------------------

/// Whether member `k` is the only one with this name.
pub open spec fn only<V>(entries: Seq<(String, V)>, k: int, name: Seq<char>) -> bool {
    &&& 0 <= k < entries.len()
    &&& entries[k].0@ == name
    &&& forall|j: int| 0 <= j < entries.len() && j != k ==> (#[trigger] entries[j]).0@ != name
}

/// Whether no member has this name.
pub open spec fn absent<V>(entries: Seq<(String, V)>, name: Seq<char>) -> bool {
    forall|j: int| 0 <= j < entries.len() ==> (#[trigger] entries[j]).0@ != name
}

/// A member that is the only one with its name is found; where there is none,
/// none is found.
pub proof fn the_only_member_is_found<V>(entries: Seq<(String, V)>, k: int, name: Seq<char>)
    ensures
        only(entries, k, name) ==> lookup(entries, name) == Lookup::Once(entries[k].1),
        absent(entries, name) ==> lookup(entries, name) == Lookup::<V>::Absent,
    decreases entries.len(),
{
    if entries.len() > 0 {
        let before = entries.drop_last();
        let last = entries.len() - 1;
        assert forall|j: int| 0 <= j < before.len() implies before[j] == #[trigger] entries[j] by {}
        assert(entries.last() == entries[last]);
        the_only_member_is_found(before, k, name);
        if only(entries, k, name) {
            if k < last {
                assert forall|j: int| 0 <= j < before.len() && j != k implies (
                #[trigger] before[j]).0@ != name by {
                    assert(entries[j].0@ != name);
                }
                assert(only(before, k, name));
                assert(values_under(entries, name) =~= values_under(before, name));
            } else {
                assert forall|j: int| 0 <= j < before.len() implies (#[trigger] before[j]).0@ != name by {
                    assert(entries[j].0@ != name);
                }
                assert(absent(before, name));
                assert(values_under(before, name) =~= Seq::empty());
                assert(values_under(entries, name) =~= seq![entries[k].1]);
            }
        }
        if absent(entries, name) {
            assert forall|j: int| 0 <= j < before.len() implies (#[trigger] before[j]).0@ != name by {
                assert(entries[j].0@ != name);
            }
            assert(absent(before, name));
        }
    }
}

/// What is found stands under its name and nowhere else; what is not found is
/// not there; what is repeated stands under its name twice.
pub proof fn what_is_found_is_there<V>(entries: Seq<(String, V)>, name: Seq<char>) -> (places: (
    int,
    int,
))
    ensures
        match lookup(entries, name) {
            Lookup::Once(value) => only(entries, places.0, name) && entries[places.0].1 == value,
            Lookup::Absent => absent(entries, name),
            Lookup::Repeated => {
                &&& 0 <= places.0 < places.1 < entries.len()
                &&& entries[places.0].0@ == name
                &&& entries[places.1].0@ == name
            },
        },
    decreases entries.len(),
{
    if entries.len() == 0 {
        (0, 0)
    } else {
        let before = entries.drop_last();
        let last = entries.len() - 1;
        assert forall|j: int| 0 <= j < before.len() implies before[j] == #[trigger] entries[j] by {}
        assert(entries.last() == entries[last]);
        let places = what_is_found_is_there(before, name);
        if entries[last].0@ == name {
            match lookup(before, name) {
                Lookup::Absent => {
                    assert(values_under(before, name) =~= Seq::empty());
                    assert forall|j: int| 0 <= j < entries.len() && j != last implies (
                    #[trigger] entries[j]).0@ != name by {
                        assert(before[j].0@ != name);
                    }
                    (last, last)
                },
                Lookup::Once(_) => (places.0, last),
                Lookup::Repeated => places,
            }
        } else {
            match lookup(before, name) {
                Lookup::Absent => {
                    assert forall|j: int| 0 <= j < entries.len() implies (#[trigger] entries[j]).0@
                        != name by {
                        if j < last {
                            assert(before[j].0@ != name);
                        }
                    }
                },
                Lookup::Once(_) => {
                    assert forall|j: int| 0 <= j < entries.len() && j != places.0 implies (
                    #[trigger] entries[j]).0@ != name by {
                        if j < last {
                            assert(before[j].0@ != name);
                        }
                    }
                },
                Lookup::Repeated => {},
            }
            places
        }
    }
}

// ---------------------------------------------------------------------------
// Descriptions and candidates
// ---------------------------------------------------------------------------

/// A description with one `type` and one `sdp`, both strings, is read as
/// these two, whatever else it holds.
pub proof fn a_description_is_read(
    entries: Vec<(String, WireScalar)>,
    t: int,
    s: int,
    kind: String,
    sdp: String,
)
    requires
        only(entries@, t, "type"@),
        only(entries@, s, "sdp"@),
        entries@[t].1 == WireScalar::Text(kind),
        entries@[s].1 == WireScalar::Text(sdp),
    ensures
        sdp_value(WireValue::Object(entries)) == Some(SdpText { kind: kind@, sdp: sdp@ }),
{
    the_only_member_is_found(entries@, t, "type"@);
    the_only_member_is_found(entries@, s, "sdp"@);
}

/// Nothing else is read as a description: where one is read, its two parts
/// stand in the object under their names, once each and as strings, or are the
/// two items of a list.
pub proof fn a_description_was_there(value: WireValue, read: SdpText) -> (places: (int, int))
    requires
        sdp_value(value) == Some(read),
    ensures
        match value {
            WireValue::Object(entries) => {
                &&& only(entries@, places.0, "type"@)
                &&& only(entries@, places.1, "sdp"@)
                &&& entries@[places.0].1 matches WireScalar::Text(kind) && kind@ == read.kind
                &&& entries@[places.1].1 matches WireScalar::Text(sdp) && sdp@ == read.sdp
            },
            WireValue::List(items) => {
                &&& items@.len() == 2
                &&& items@[0] matches WireScalar::Text(kind) && kind@ == read.kind
                &&& items@[1] matches WireScalar::Text(sdp) && sdp@ == read.sdp
            },
            WireValue::Scalar(_) => false,
        },
{
    match value {
        WireValue::Object(entries) => {
            let t = what_is_found_is_there(entries@, "type"@);
            let s = what_is_found_is_there(entries@, "sdp"@);
            (t.0, s.0)
        },
        _ => (0, 1),
    }
}

/// A list of two strings is read as a description.
pub proof fn a_listed_description_is_read(items: Vec<WireScalar>, kind: String, sdp: String)
    requires
        items@.len() == 2,
        items@[0] == WireScalar::Text(kind),
        items@[1] == WireScalar::Text(sdp),
    ensures
        sdp_value(WireValue::List(items)) == Some(SdpText { kind: kind@, sdp: sdp@ }),
{
}

/// Whether a part of a candidate, if it is there at all, says this text:
/// nothing or null says none.
pub open spec fn says_text(part: Option<WireScalar>, text: Option<Seq<char>>) -> bool {
    match part {
        Some(WireScalar::Text(t)) => text == Some(t@),
        Some(WireScalar::Null) | None => text is None,
        _ => false,
    }
}

/// Whether a part of a candidate, if it is there at all, says this number of
/// sixteen bits: nothing or null says none.
pub open spec fn says_number(part: Option<WireScalar>, number: Option<u16>) -> bool {
    match part {
        Some(WireScalar::Whole(n)) => number matches Some(m) && m == n,
        Some(WireScalar::Null) | None => number is None,
        _ => false,
    }
}

/// Whether a member stands in this place, or in none.
pub open spec fn stands(
    entries: Seq<(String, WireScalar)>,
    place: Option<int>,
    name: Seq<char>,
    part: Option<WireScalar>,
) -> bool {
    match place {
        Some(k) => only(entries, k, name) && part == Some(entries[k].1),
        None => absent(entries, name) && part is None,
    }
}

/// Finds the place of a member that is not repeated.
proof fn place_of(entries: Seq<(String, WireScalar)>, name: Seq<char>) -> (found: (
    Option<int>,
    Option<WireScalar>,
))
    requires
        !(lookup(entries, name) is Repeated),
    ensures
        stands(entries, found.0, name, found.1),
        match found.1 {
            Some(part) => lookup(entries, name) == Lookup::Once(part),
            None => lookup(entries, name) == Lookup::<WireScalar>::Absent,
        },
{
    let places = what_is_found_is_there(entries, name);
    match lookup(entries, name) {
        Lookup::Once(part) => (Some(places.0), Some(part)),
        _ => (None, None),
    }
}

/// A candidate whose line is a string, and whose other parts are what they
/// should be or not there, each at most once, is read with every part in
/// full, whatever else it holds.
pub proof fn a_candidate_is_read(
    entries: Vec<(String, WireScalar)>,
    l: int,
    places: (Option<int>, Option<int>, Option<int>),
    parts: (Option<WireScalar>, Option<WireScalar>, Option<WireScalar>),
    line: String,
    said: CandidateText,
)
    requires
        only(entries@, l, "candidate"@),
        entries@[l].1 == WireScalar::Text(line),
        stands(entries@, places.0, "sdpMid"@, parts.0),
        stands(entries@, places.1, "sdpMLineIndex"@, parts.1),
        stands(entries@, places.2, "usernameFragment"@, parts.2),
        said.candidate == line@,
        says_text(parts.0, said.sdp_mid),
        says_number(parts.1, said.sdp_mline_index),
        says_text(parts.2, said.username_fragment),
    ensures
        candidate_value(WireValue::Object(entries)) == Some(said),
{
    the_only_member_is_found(entries@, l, "candidate"@);
    the_only_member_is_found(
        entries@,
        match places.0 {
            Some(k) => k,
            None => 0,
        },
        "sdpMid"@,
    );
    the_only_member_is_found(
        entries@,
        match places.1 {
            Some(k) => k,
            None => 0,
        },
        "sdpMLineIndex"@,
    );
    the_only_member_is_found(
        entries@,
        match places.2 {
            Some(k) => k,
            None => 0,
        },
        "usernameFragment"@,
    );
}

/// Nothing else is read as a candidate: where one is read from an object, its
/// line stands there once and as a string, and its other parts say what was
/// read, each at most once.
pub proof fn a_candidate_was_there(entries: Vec<(String, WireScalar)>, read: CandidateText) -> (found: (
    int,
    (Option<int>, Option<int>, Option<int>),
    (Option<WireScalar>, Option<WireScalar>, Option<WireScalar>),
))
    requires
        candidate_value(WireValue::Object(entries)) == Some(read),
    ensures
        only(entries@, found.0, "candidate"@),
        entries@[found.0].1 matches WireScalar::Text(line) && line@ == read.candidate,
        stands(entries@, found.1.0, "sdpMid"@, found.2.0),
        stands(entries@, found.1.1, "sdpMLineIndex"@, found.2.1),
        stands(entries@, found.1.2, "usernameFragment"@, found.2.2),
        says_text(found.2.0, read.sdp_mid),
        says_number(found.2.1, read.sdp_mline_index),
        says_text(found.2.2, read.username_fragment),
{
    let l = what_is_found_is_there(entries@, "candidate"@);
    let m = place_of(entries@, "sdpMid"@);
    let i = place_of(entries@, "sdpMLineIndex"@);
    let f = place_of(entries@, "usernameFragment"@);
    (l.0, (m.0, i.0, f.0), (m.1, i.1, f.1))
}

/// The item of a list in this place, if the list is so long.
pub open spec fn nth(items: Seq<WireScalar>, place: int) -> Option<WireScalar> {
    if 0 <= place < items.len() {
        Some(items[place])
    } else {
        None
    }
}

/// A list is read as a candidate exactly if it has one to four items, of which
/// the first is its line and the others say its other parts by their place.
pub proof fn a_listed_candidate_is_read(items: Vec<WireScalar>, said: CandidateText)
    ensures
        candidate_value(WireValue::List(items)) == Some(said) <==> {
            &&& 1 <= items@.len() <= 4
            &&& items@[0] matches WireScalar::Text(line) && line@ == said.candidate
            &&& says_text(nth(items@, 1), said.sdp_mid)
            &&& says_number(nth(items@, 2), said.sdp_mline_index)
            &&& says_text(nth(items@, 3), said.username_fragment)
        },
{
    assert(item_at(items@, 1) == match nth(items@, 1) {
        Some(x) => Lookup::Once(x),
        None => Lookup::Absent,
    });
    assert(item_at(items@, 2) == match nth(items@, 2) {
        Some(x) => Lookup::Once(x),
        None => Lookup::Absent,
    });
    assert(item_at(items@, 3) == match nth(items@, 3) {
        Some(x) => Lookup::Once(x),
        None => Lookup::Absent,
    });
}

/// A plain value is neither a description nor a candidate.
pub proof fn plain_values_are_no_records(scalar: WireScalar)
    ensures
        sdp_value(WireValue::Scalar(scalar)) is None,
        candidate_value(WireValue::Scalar(scalar)) is None,
{
}

// ---------------------------------------------------------------------------
// Messages
// ---------------------------------------------------------------------------

/// The types of messages differ.
proof fn types_differ()
    ensures
        "session-joined"@.len() == 14,
        "viewer-joined"@.len() == 13,
        "peer-disconnected"@.len() == 17,
        "session-expired"@.len() == 15,
        "session-created"@.len() == 15,
        "offer"@.len() == 5,
        "answer"@.len() == 6,
        "ice-candidate"@.len() == 13,
        "error"@.len() == 5,
        "session-expired"@ != "session-created"@,
        "viewer-joined"@ != "ice-candidate"@,
        "offer"@ != "error"@,
{
    reveal_strlit("session-joined");
    reveal_strlit("viewer-joined");
    reveal_strlit("peer-disconnected");
    reveal_strlit("session-expired");
    reveal_strlit("session-created");
    reveal_strlit("offer");
    reveal_strlit("answer");
    reveal_strlit("ice-candidate");
    reveal_strlit("error");
    assert("session-expired"@[8] == 'e' && "session-created"@[8] == 'c');
    assert("viewer-joined"@[0] == 'v' && "ice-candidate"@[0] == 'i');
    assert("offer"@[0] == 'o' && "error"@[0] == 'e');
}

/// Whether `value` is this string.
pub open spec fn is_text(value: WireValue, text: Seq<char>) -> bool {
    value matches WireValue::Scalar(WireScalar::Text(t)) && t@ == text
}

/// An object with one `type`, a string of the protocol, is read as a message
/// of that type; where the type goes with a part, the part stands there once
/// and is what it should be (member `k`), and is read in full. An absent or
/// null candidate is the end of candidates. Whatever else the object holds
/// does not matter.
pub proof fn a_message_is_read(entries: Vec<(String, WireValue)>, t: int, k: int)
    requires
        only(entries@, t, "type"@),
    ensures
        ({
            let read = server_message(WireMessage::Object(entries));
            let tag = entries@[t].1;
            &&& is_text(tag, "session-joined"@) ==> read == Some(ServerText::SessionJoined)
            &&& is_text(tag, "viewer-joined"@) ==> read == Some(ServerText::ViewerJoined)
            &&& is_text(tag, "peer-disconnected"@) ==> read == Some(ServerText::PeerDisconnected)
            &&& is_text(tag, "session-expired"@) ==> read == Some(ServerText::SessionExpired)
            &&& is_text(tag, "session-created"@) && only(entries@, k, "pin"@) ==> (
            entries@[k].1 matches WireValue::Scalar(WireScalar::Text(pin)) ==> read == Some(
                ServerText::SessionCreated { pin: pin@ },
            ))
            &&& is_text(tag, "error"@) && only(entries@, k, "error"@) ==> (
            entries@[k].1 matches WireValue::Scalar(WireScalar::Text(error)) ==> read == Some(
                ServerText::Error { error: error@ },
            ))
            &&& is_text(tag, "offer"@) && only(entries@, k, "sdp"@) ==> (sdp_value(
                entries@[k].1,
            ) matches Some(sdp) ==> read == Some(ServerText::Offer { sdp }))
            &&& is_text(tag, "answer"@) && only(entries@, k, "sdp"@) ==> (sdp_value(
                entries@[k].1,
            ) matches Some(sdp) ==> read == Some(ServerText::Answer { sdp }))
            &&& is_text(tag, "ice-candidate"@) && only(entries@, k, "candidate"@) ==> (candidate_value(
                entries@[k].1,
            ) matches Some(c) ==> read == Some(ServerText::IceCandidate { candidate: Some(c) }))
            &&& is_text(tag, "ice-candidate"@) && only(entries@, k, "candidate"@) && entries@[k].1
                == WireValue::Scalar(WireScalar::Null) ==> read == Some(
                ServerText::IceCandidate { candidate: None },
            )
            &&& is_text(tag, "ice-candidate"@) && absent(entries@, "candidate"@) ==> read == Some(
                ServerText::IceCandidate { candidate: None },
            )
        }),
{
    types_differ();
    the_only_member_is_found(entries@, t, "type"@);
    the_only_member_is_found(entries@, k, "pin"@);
    the_only_member_is_found(entries@, k, "error"@);
    the_only_member_is_found(entries@, k, "sdp"@);
    the_only_member_is_found(entries@, k, "candidate"@);
}

/// Nothing else is read: where a message is read from an object, the object
/// has one `type`, that of the message, and one part, the one that was read.
pub proof fn a_message_was_there(entries: Vec<(String, WireValue)>, read: ServerText) -> (places: (
    int,
    int,
))
    requires
        server_message(WireMessage::Object(entries)) == Some(read),
    ensures
        only(entries@, places.0, "type"@),
        ({
            let tag = entries@[places.0].1;
            let part = entries@[places.1].1;
            match read {
                ServerText::SessionJoined => is_text(tag, "session-joined"@),
                ServerText::ViewerJoined => is_text(tag, "viewer-joined"@),
                ServerText::PeerDisconnected => is_text(tag, "peer-disconnected"@),
                ServerText::SessionExpired => is_text(tag, "session-expired"@),
                ServerText::SessionCreated { pin } => {
                    &&& is_text(tag, "session-created"@)
                    &&& only(entries@, places.1, "pin"@)
                    &&& is_text(part, pin)
                },
                ServerText::Error { error } => {
                    &&& is_text(tag, "error"@)
                    &&& only(entries@, places.1, "error"@)
                    &&& is_text(part, error)
                },
                ServerText::Offer { sdp } => {
                    &&& is_text(tag, "offer"@)
                    &&& only(entries@, places.1, "sdp"@)
                    &&& sdp_value(part) == Some(sdp)
                },
                ServerText::Answer { sdp } => {
                    &&& is_text(tag, "answer"@)
                    &&& only(entries@, places.1, "sdp"@)
                    &&& sdp_value(part) == Some(sdp)
                },
                ServerText::IceCandidate { candidate: Some(c) } => {
                    &&& is_text(tag, "ice-candidate"@)
                    &&& only(entries@, places.1, "candidate"@)
                    &&& candidate_value(part) == Some(c)
                },
                ServerText::IceCandidate { candidate: None } => {
                    &&& is_text(tag, "ice-candidate"@)
                    &&& absent(entries@, "candidate"@) || (only(entries@, places.1, "candidate"@)
                        && part == WireValue::Scalar(WireScalar::Null))
                },
            }
        }),
{
    types_differ();
    let t = what_is_found_is_there(entries@, "type"@);
    let name = match read {
        ServerText::SessionCreated { .. } => "pin"@,
        ServerText::Error { .. } => "error"@,
        ServerText::Offer { .. } | ServerText::Answer { .. } => "sdp"@,
        _ => "candidate"@,
    };
    let k = what_is_found_is_there(entries@, name);
    (t.0, k.0)
}

/// A list is read as a message exactly if its first item is a type of the
/// protocol and what follows is that type's one part, or nothing where the
/// type has none. A candidate may be null or left out.
pub proof fn a_listed_message_is_read(items: Vec<WireValue>, said: ServerText)
    ensures
        server_message(WireMessage::List(items)) == Some(said) <==> items@.len() >= 1 && match said {
            ServerText::SessionJoined => items@.len() == 1 && is_text(items@[0], "session-joined"@),
            ServerText::ViewerJoined => items@.len() == 1 && is_text(items@[0], "viewer-joined"@),
            ServerText::PeerDisconnected => items@.len() == 1 && is_text(
                items@[0],
                "peer-disconnected"@,
            ),
            ServerText::SessionExpired => items@.len() == 1 && is_text(items@[0], "session-expired"@),
            ServerText::SessionCreated { pin } => {
                &&& items@.len() == 2
                &&& is_text(items@[0], "session-created"@)
                &&& is_text(items@[1], pin)
            },
            ServerText::Error { error } => {
                &&& items@.len() == 2
                &&& is_text(items@[0], "error"@)
                &&& is_text(items@[1], error)
            },
            ServerText::Offer { sdp } => {
                &&& items@.len() == 2
                &&& is_text(items@[0], "offer"@)
                &&& sdp_value(items@[1]) == Some(sdp)
            },
            ServerText::Answer { sdp } => {
                &&& items@.len() == 2
                &&& is_text(items@[0], "answer"@)
                &&& sdp_value(items@[1]) == Some(sdp)
            },
            ServerText::IceCandidate { candidate: Some(c) } => {
                &&& items@.len() == 2
                &&& is_text(items@[0], "ice-candidate"@)
                &&& candidate_value(items@[1]) == Some(c)
            },
            ServerText::IceCandidate { candidate: None } => {
                &&& is_text(items@[0], "ice-candidate"@)
                &&& items@.len() == 1 || (items@.len() == 2 && items@[1] == WireValue::Scalar(
                    WireScalar::Null,
                ))
            },
        },
{
    types_differ();
}

} // verus!
