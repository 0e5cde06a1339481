//! What holds of the wire format: whatever the host writes, a reader of JSON
//! reads as what was meant, and whatever the server sends is read as what it
//! says.
use crate::json::{
    before_text, digits_lead, nibble, read_json, read_members, read_more, read_string, read_value,
    Json,
};
use crate::messages::{optional_text, ClientMessage, IceCandidateInit, SdpPayload};
use crate::text::{decimal, decimal_reads_back, is_digit};
use crate::wire::{
    candidate_json, client_json, escaped, escaped_front, escaped_text, hex_digit, quoted, sdp_json,
    text_member,
};
use vstd::prelude::*;

verus! {

// ---------------------------------------------------------------------------
// Reading what was written
// ---------------------------------------------------------------------------

/// One escaped character is read as itself, whatever follows it.
proof fn escaped_is_read(c: char, rest: Seq<char>)
    ensures
        read_string(escaped(c) + rest) == before_text(c, read_string(rest)),
{
    let t = escaped(c) + rest;
    reveal_strlit("0123456789abcdef");
    assert(t.skip(escaped(c).len() as int) =~= rest);
    if escaped(c).len() == 6 {
        let high = c as int / 16;
        let low = c as int % 16;
        assert(t[2] == '0' && t[3] == '0' && t[4] == hex_digit(high) && t[5] == hex_digit(low));
        assert(nibble(hex_digit(high)) == Some(high));
        assert(nibble(hex_digit(low)) == Some(low));
        assert(nibble('0') == Some(0int));
    }
}

/// A string without its opening quote is read as its text.
proof fn string_is_read(s: Seq<char>, rest: Seq<char>)
    ensures
        read_string(escaped_text(s) + (seq!['"'] + rest)) == Some((s, rest)),
    decreases s.len(),
{
    let end = seq!['"'] + rest;
    if s.len() == 0 {
        assert(escaped_text(s) + end =~= end);
        assert(end.skip(1) =~= rest);
        assert(s =~= Seq::empty());
    } else {
        escaped_front(s);
        let tail = escaped_text(s.drop_first()) + end;
        assert(escaped_text(s) + end =~= escaped(s[0]) + tail);
        escaped_is_read(s[0], tail);
        string_is_read(s.drop_first(), rest);
        assert(seq![s[0]] + s.drop_first() =~= s);
    }
}

/// A quoted text is read as the text.
proof fn quoted_is_read(s: Seq<char>, rest: Seq<char>)
    ensures
        read_value(quoted(s) + rest) == Some((Json::Text(s), rest)),
        (quoted(s) + rest)[0] == '"',
        read_string((quoted(s) + rest).skip(1)) == Some((s, rest)),
{
    string_is_read(s, rest);
    assert((quoted(s) + rest).skip(1) =~= escaped_text(s) + (seq!['"'] + rest));
}

/// A decimal number is read as the number, if no digit follows it.
proof fn decimal_is_read(n: nat, rest: Seq<char>)
    requires
        rest.len() > 0 ==> !is_digit(rest[0]),
    ensures
        read_value(decimal(n) + rest) == Some((Json::Number(n), rest)),
{
    decimal_reads_back(n);
    digits_lead(decimal(n), rest);
    let t = decimal(n) + rest;
    assert(t[0] == decimal(n)[0]);
    assert(is_digit(decimal(n)[0]));
    assert(t.take(decimal(n).len() as int) =~= decimal(n));
    assert(t.skip(decimal(n).len() as int) =~= rest);
}

/// A member is read as its name and its value, before what follows it.
proof fn member_is_read(
    name: Seq<char>,
    written: Seq<char>,
    value: Json,
    after: Seq<char>,
    members: Seq<(Seq<char>, Json)>,
    rest: Seq<char>,
)
    requires
        read_value(written + after) == Some((value, after)),
        read_more(after) == Some((members, rest)),
    ensures
        read_members(quoted(name) + (seq![':'] + (written + after))) == Some(
            (seq![(name, value)] + members, rest),
        ),
        (quoted(name) + (seq![':'] + (written + after)))[0] == '"',
{
    let colon = seq![':'] + (written + after);
    quoted_is_read(name, colon);
    assert(colon.skip(1) =~= written + after);
}

/// A further member is read as its name and its value, before what follows it.
proof fn further_member_is_read(
    name: Seq<char>,
    written: Seq<char>,
    value: Json,
    after: Seq<char>,
    members: Seq<(Seq<char>, Json)>,
    rest: Seq<char>,
)
    requires
        read_value(written + after) == Some((value, after)),
        read_more(after) == Some((members, rest)),
    ensures
        read_more(seq![','] + (quoted(name) + (seq![':'] + (written + after)))) == Some(
            (seq![(name, value)] + members, rest),
        ),
{
    member_is_read(name, written, value, after, members, rest);
    let t = quoted(name) + (seq![':'] + (written + after));
    assert((seq![','] + t).skip(1) =~= t);
}

/// An object is read as its members.
proof fn object_is_read(body: Seq<char>, members: Seq<(Seq<char>, Json)>, rest: Seq<char>)
    requires
        read_members(body) == Some((members, rest)),
    ensures
        read_value(seq!['{'] + body) == Some((Json::Object(members), rest)),
{
    assert((seq!['{'] + body).skip(1) =~= body);
}

/// A closing brace ends an object.
proof fn brace_is_read(rest: Seq<char>)
    ensures
        read_more(seq!['}'] + rest) == Some((Seq::<(Seq<char>, Json)>::empty(), rest)),
{
    assert((seq!['}'] + rest).skip(1) =~= rest);
}

/// Whether nothing in a text has to be escaped.
spec fn is_plain(s: Seq<char>) -> bool {
    forall|i: int|
        0 <= i < s.len() ==> (#[trigger] s[i]) != '"' && s[i] != '\\' && (s[i] as u32) >= 0x20
}

/// A text in which nothing has to be escaped is quoted as it is.
proof fn plain_is_quoted(s: Seq<char>)
    requires
        is_plain(s),
    ensures
        escaped_text(s) == s,
        quoted(s) == seq!['"'] + s + seq!['"'],
    decreases s.len(),
{
    if s.len() > 0 {
        assert(is_plain(s.drop_last())) by {
            assert forall|i: int| 0 <= i < s.drop_last().len() implies (#[trigger] s.drop_last()[i])
                != '"' && s.drop_last()[i] != '\\' && (s.drop_last()[i] as u32) >= 0x20 by {
                assert(s.drop_last()[i] == s[i]);
            }
        }
        plain_is_quoted(s.drop_last());
        assert(s.last() == s[s.len() - 1]);
        assert(escaped_text(s) =~= s);
    } else {
        assert(escaped_text(s) =~= s);
    }
}

/// The member with this name and text, if there is a text.
pub open spec fn text_part(name: Seq<char>, text: Option<String>) -> Seq<(Seq<char>, Json)> {
    match text {
        Some(text) => seq![(name, Json::Text(text@))],
        None => Seq::empty(),
    }
}

/// The member with this name and number, if there is a number.
pub open spec fn number_part(name: Seq<char>, number: Option<u16>) -> Seq<(Seq<char>, Json)> {
    match number {
        Some(n) => seq![(name, Json::Number(n as nat))],
        None => Seq::empty(),
    }
}

/// An optional member is read if it is there, and nothing is if it is not.
proof fn optional_text_is_read(
    label: Seq<char>,
    name: Seq<char>,
    text: Option<String>,
    after: Seq<char>,
    members: Seq<(Seq<char>, Json)>,
    rest: Seq<char>,
)
    requires
        label == seq![','] + quoted(name) + seq![':'],
        read_more(after) == Some((members, rest)),
    ensures
        read_more(text_member(label, optional_text(text)) + after) == Some(
            (text_part(name, text) + members, rest),
        ),
{
    match text {
        Some(s) => {
            quoted_is_read(s@, after);
            further_member_is_read(name, quoted(s@), Json::Text(s@), after, members, rest);
            assert(text_member(label, Some(s@)) + after =~= seq![','] + (quoted(name) + (seq![':'] + (
            quoted(s@) + after))));
        },
        None => {
            assert(text_member(label, None) + after =~= after);
            assert(text_part(name, text) + members =~= members);
        },
    }
}

/// How the names and types of the protocol are written.
proof fn labels_of_a_candidate()
    ensures
        "{\"candidate\":"@ == seq!['{'] + quoted("candidate"@) + seq![':'],
        ",\"sdpMid\":"@ == seq![','] + quoted("sdpMid"@) + seq![':'],
        ",\"sdpMLineIndex\":"@ == seq![','] + quoted("sdpMLineIndex"@) + seq![':'],
        ",\"usernameFragment\":"@ == seq![','] + quoted("usernameFragment"@) + seq![':'],
        "}"@ == seq!['}'],
{
    reveal_strlit("{\"candidate\":");
    reveal_strlit(",\"sdpMid\":");
    reveal_strlit(",\"sdpMLineIndex\":");
    reveal_strlit(",\"usernameFragment\":");
    reveal_strlit("candidate");
    reveal_strlit("sdpMid");
    reveal_strlit("sdpMLineIndex");
    reveal_strlit("usernameFragment");
    reveal_strlit("}");
    plain_is_quoted("candidate"@);
    plain_is_quoted("sdpMid"@);
    plain_is_quoted("sdpMLineIndex"@);
    plain_is_quoted("usernameFragment"@);
    assert("{\"candidate\":"@ =~= seq!['{'] + quoted("candidate"@) + seq![':']);
    assert(",\"sdpMid\":"@ =~= seq![','] + quoted("sdpMid"@) + seq![':']);
    assert(",\"sdpMLineIndex\":"@ =~= seq![','] + quoted("sdpMLineIndex"@) + seq![':']);
    assert(",\"usernameFragment\":"@ =~= seq![','] + quoted("usernameFragment"@) + seq![':']);
    assert("}"@ =~= seq!['}']);
}

/// The members of a written candidate: its line, and each other part that is
/// there.
pub open spec fn candidate_members(c: IceCandidateInit) -> Seq<(Seq<char>, Json)> {
    seq![("candidate"@, Json::Text(c.candidate@))] + (text_part("sdpMid"@, c.sdp_mid) + (number_part(
        "sdpMLineIndex"@,
        c.sdp_mline_index,
    ) + text_part("usernameFragment"@, c.username_fragment)))
}

/// A written candidate reads back in full: its line, its section and its
/// fragment, each under its own name; a part is left out exactly if it is
/// absent, whatever the other parts are.
pub proof fn a_written_candidate_reads_back(c: IceCandidateInit, rest: Seq<char>)
    ensures
        read_value(candidate_json(c@) + rest) == Some((Json::Object(candidate_members(c)), rest)),
        read_json(candidate_json(c@)) == Some(Json::Object(candidate_members(c))),
{
    candidate_is_read(c, rest);
    candidate_is_read(c, Seq::empty());
    assert(candidate_json(c@) + Seq::<char>::empty() =~= candidate_json(c@));
}

/// The text of an optional number.
spec fn index_text(number: Option<u16>) -> Seq<char> {
    match number {
        Some(n) => ",\"sdpMLineIndex\":"@ + decimal(n as nat),
        None => Seq::empty(),
    }
}

/// An optional number is read if it is there, and nothing is if it is not.
proof fn optional_index_is_read(
    number: Option<u16>,
    after: Seq<char>,
    members: Seq<(Seq<char>, Json)>,
    rest: Seq<char>,
)
    requires
        read_more(after) == Some((members, rest)),
    ensures
        read_more(index_text(number) + after) == Some(
            (number_part("sdpMLineIndex"@, number) + members, rest),
        ),
{
    labels_of_a_candidate();
    match number {
        Some(n) => {
            assert(after[0] == ',' || after[0] == '}');
            decimal_is_read(n as nat, after);
            further_member_is_read(
                "sdpMLineIndex"@,
                decimal(n as nat),
                Json::Number(n as nat),
                after,
                members,
                rest,
            );
            assert(index_text(number) + after =~= seq![','] + (quoted("sdpMLineIndex"@) + (seq![':'] + (
            decimal(n as nat) + after))));
        },
        None => {
            assert(index_text(number) + after =~= after);
            assert(number_part("sdpMLineIndex"@, number) + members =~= members);
        },
    }
}

/// What follows the line in the text of a candidate.
spec fn after_the_line(c: IceCandidateInit, rest: Seq<char>) -> Seq<char> {
    text_member(",\"sdpMid\":"@, optional_text(c.sdp_mid)) + (index_text(c.sdp_mline_index) + (
    text_member(",\"usernameFragment\":"@, optional_text(c.username_fragment)) + (seq!['}'] + rest)))
}

proof fn after_the_line_is_read(c: IceCandidateInit, rest: Seq<char>)
    ensures
        read_more(after_the_line(c, rest)) == Some(
            (
                text_part("sdpMid"@, c.sdp_mid) + (number_part("sdpMLineIndex"@, c.sdp_mline_index)
                    + text_part("usernameFragment"@, c.username_fragment)),
                rest,
            ),
        ),
{
    labels_of_a_candidate();
    brace_is_read(rest);
    let none = Seq::<(Seq<char>, Json)>::empty();
    let a3 = seq!['}'] + rest;
    optional_text_is_read(
        ",\"usernameFragment\":"@,
        "usernameFragment"@,
        c.username_fragment,
        a3,
        none,
        rest,
    );
    let m2 = text_part("usernameFragment"@, c.username_fragment);
    assert(m2 + none =~= m2);
    let a2 = text_member(",\"usernameFragment\":"@, optional_text(c.username_fragment)) + a3;
    optional_index_is_read(c.sdp_mline_index, a2, m2, rest);
    let m1 = number_part("sdpMLineIndex"@, c.sdp_mline_index) + m2;
    let a1 = index_text(c.sdp_mline_index) + a2;
    optional_text_is_read(",\"sdpMid\":"@, "sdpMid"@, c.sdp_mid, a1, m1, rest);
}

proof fn text_of_a_candidate(c: IceCandidateInit, rest: Seq<char>)
    ensures
        candidate_json(c@) + rest == seq!['{'] + (quoted("candidate"@) + (seq![':'] + (quoted(
            c.candidate@,
        ) + after_the_line(c, rest)))),
{
    labels_of_a_candidate();
    let head = seq!['{'] + quoted("candidate"@) + seq![':'];
    let line = quoted(c.candidate@);
    let mid = text_member(",\"sdpMid\":"@, optional_text(c.sdp_mid));
    let index = index_text(c.sdp_mline_index);
    let fragment = text_member(",\"usernameFragment\":"@, optional_text(c.username_fragment));
    assert(candidate_json(c@) == head + line + mid + index + fragment + seq!['}']);
    assert(head + line + mid + index + fragment + seq!['}'] + rest =~= seq!['{'] + (quoted(
        "candidate"@,
    ) + (seq![':'] + (line + (mid + (index + (fragment + (seq!['}'] + rest))))))));
}

proof fn candidate_is_read(c: IceCandidateInit, rest: Seq<char>)
    ensures
        read_value(candidate_json(c@) + rest) == Some((Json::Object(candidate_members(c)), rest)),
{
    text_of_a_candidate(c, rest);
    after_the_line_is_read(c, rest);
    let after = after_the_line(c, rest);
    let members = text_part("sdpMid"@, c.sdp_mid) + (number_part("sdpMLineIndex"@, c.sdp_mline_index)
        + text_part("usernameFragment"@, c.username_fragment));
    quoted_is_read(c.candidate@, after);
    member_is_read("candidate"@, quoted(c.candidate@), Json::Text(c.candidate@), after, members, rest);
    object_is_read(
        quoted("candidate"@) + (seq![':'] + (quoted(c.candidate@) + after)),
        candidate_members(c),
        rest,
    );
}

// ---------------------------------------------------------------------------
// Whole messages
// ---------------------------------------------------------------------------

/// How the types of messages are written.
proof fn labels_of_messages()
    ensures
        "{\"type\":\"create-session\"}"@ == seq!['{'] + (quoted("type"@) + (seq![':'] + (quoted(
            "create-session"@,
        ) + seq!['}']))),
        "{\"type\":\"end-session\"}"@ == seq!['{'] + (quoted("type"@) + (seq![':'] + (quoted(
            "end-session"@,
        ) + seq!['}']))),
        "{\"type\":\"ice-candidate\"}"@ == seq!['{'] + (quoted("type"@) + (seq![':'] + (quoted(
            "ice-candidate"@,
        ) + seq!['}']))),
        "{\"type\":"@ == seq!['{'] + (quoted("type"@) + seq![':']),
        ",\"sdp\":"@ == seq![','] + (quoted("sdp"@) + seq![':']),
{
    reveal_strlit("{\"type\":\"create-session\"}");
    reveal_strlit("{\"type\":\"end-session\"}");
    reveal_strlit("{\"type\":\"ice-candidate\"}");
    reveal_strlit("{\"type\":");
    reveal_strlit(",\"sdp\":");
    reveal_strlit("type");
    reveal_strlit("sdp");
    reveal_strlit("create-session");
    reveal_strlit("end-session");
    reveal_strlit("ice-candidate");
    plain_is_quoted("type"@);
    plain_is_quoted("sdp"@);
    plain_is_quoted("create-session"@);
    plain_is_quoted("end-session"@);
    plain_is_quoted("ice-candidate"@);
    assert("{\"type\":\"create-session\"}"@ =~= seq!['{'] + (quoted("type"@) + (seq![':'] + (quoted(
        "create-session"@,
    ) + seq!['}']))));
    assert("{\"type\":\"end-session\"}"@ =~= seq!['{'] + (quoted("type"@) + (seq![':'] + (quoted(
        "end-session"@,
    ) + seq!['}']))));
    assert("{\"type\":\"ice-candidate\"}"@ =~= seq!['{'] + (quoted("type"@) + (seq![':'] + (quoted(
        "ice-candidate"@,
    ) + seq!['}']))));
    assert("{\"type\":"@ =~= seq!['{'] + (quoted("type"@) + seq![':']));
    assert(",\"sdp\":"@ =~= seq![','] + (quoted("sdp"@) + seq![':']));
}

/// How messages with a part begin.
proof fn labels_of_messages_with_a_part()
    ensures
        "{\"type\":\"join-session\",\"pin\":"@ == seq!['{'] + (quoted("type"@) + (seq![':'] + (quoted(
            "join-session"@,
        ) + (seq![','] + (quoted("pin"@) + seq![':']))))),
        "{\"type\":\"offer\",\"sdp\":"@ == seq!['{'] + (quoted("type"@) + (seq![':'] + (quoted("offer"@)
            + (seq![','] + (quoted("sdp"@) + seq![':']))))),
        "{\"type\":\"answer\",\"sdp\":"@ == seq!['{'] + (quoted("type"@) + (seq![':'] + (quoted(
            "answer"@,
        ) + (seq![','] + (quoted("sdp"@) + seq![':']))))),
        "{\"type\":\"ice-candidate\",\"candidate\":"@ == seq!['{'] + (quoted("type"@) + (seq![':'] + (
        quoted("ice-candidate"@) + (seq![','] + (quoted("candidate"@) + seq![':']))))),
{
    reveal_strlit("{\"type\":\"join-session\",\"pin\":");
    reveal_strlit("{\"type\":\"offer\",\"sdp\":");
    reveal_strlit("{\"type\":\"answer\",\"sdp\":");
    reveal_strlit("{\"type\":\"ice-candidate\",\"candidate\":");
    reveal_strlit("type");
    reveal_strlit("pin");
    reveal_strlit("sdp");
    reveal_strlit("candidate");
    reveal_strlit("join-session");
    reveal_strlit("offer");
    reveal_strlit("answer");
    reveal_strlit("ice-candidate");
    plain_is_quoted("type"@);
    plain_is_quoted("pin"@);
    plain_is_quoted("sdp"@);
    plain_is_quoted("candidate"@);
    plain_is_quoted("join-session"@);
    plain_is_quoted("offer"@);
    plain_is_quoted("answer"@);
    plain_is_quoted("ice-candidate"@);
    assert("{\"type\":\"join-session\",\"pin\":"@ =~= seq!['{'] + (quoted("type"@) + (seq![':'] + (
    quoted("join-session"@) + (seq![','] + (quoted("pin"@) + seq![':']))))));
    assert("{\"type\":\"offer\",\"sdp\":"@ =~= seq!['{'] + (quoted("type"@) + (seq![':'] + (quoted(
        "offer"@,
    ) + (seq![','] + (quoted("sdp"@) + seq![':']))))));
    assert("{\"type\":\"answer\",\"sdp\":"@ =~= seq!['{'] + (quoted("type"@) + (seq![':'] + (quoted(
        "answer"@,
    ) + (seq![','] + (quoted("sdp"@) + seq![':']))))));
    assert("{\"type\":\"ice-candidate\",\"candidate\":"@ =~= seq!['{'] + (quoted("type"@) + (seq![':']
        + (quoted("ice-candidate"@) + (seq![','] + (quoted("candidate"@) + seq![':']))))));
}

/// The members of a written description.
pub open spec fn sdp_members(sdp: SdpPayload) -> Seq<(Seq<char>, Json)> {
    seq![("type"@, Json::Text(sdp.kind@)), ("sdp"@, Json::Text(sdp.sdp@))]
}

/// A written description reads back with its kind and its SDP.
pub proof fn a_written_description_reads_back(sdp: SdpPayload, rest: Seq<char>)
    ensures
        read_value(sdp_json(sdp@) + rest) == Some((Json::Object(sdp_members(sdp)), rest)),
{
    labels_of_messages();
    labels_of_a_candidate();
    let a1 = seq!['}'] + rest;
    brace_is_read(rest);
    let none = Seq::<(Seq<char>, Json)>::empty();
    quoted_is_read(sdp.sdp@, a1);
    further_member_is_read("sdp"@, quoted(sdp.sdp@), Json::Text(sdp.sdp@), a1, none, rest);
    let a0 = seq![','] + (quoted("sdp"@) + (seq![':'] + (quoted(sdp.sdp@) + a1)));
    let m0 = seq![("sdp"@, Json::Text(sdp.sdp@))] + none;
    quoted_is_read(sdp.kind@, a0);
    member_is_read("type"@, quoted(sdp.kind@), Json::Text(sdp.kind@), a0, m0, rest);
    object_is_read(
        quoted("type"@) + (seq![':'] + (quoted(sdp.kind@) + a0)),
        seq![("type"@, Json::Text(sdp.kind@))] + m0,
        rest,
    );
    assert(sdp_json(sdp@) + rest =~= seq!['{'] + (quoted("type"@) + (seq![':'] + (quoted(sdp.kind@)
        + a0))));
    assert(seq![("type"@, Json::Text(sdp.kind@))] + m0 =~= sdp_members(sdp));
}

/// A message that is its type alone.
proof fn bare_message_is_read(tag: Seq<char>)
    ensures
        read_json(seq!['{'] + (quoted("type"@) + (seq![':'] + (quoted(tag) + seq!['}'])))) == Some(
            Json::Object(seq![("type"@, Json::Text(tag))]),
        ),
{
    let none = Seq::<(Seq<char>, Json)>::empty();
    let rest = Seq::<char>::empty();
    assert(seq!['}'] + rest =~= seq!['}']);
    brace_is_read(rest);
    quoted_is_read(tag, seq!['}']);
    member_is_read("type"@, quoted(tag), Json::Text(tag), seq!['}'], none, rest);
    object_is_read(
        quoted("type"@) + (seq![':'] + (quoted(tag) + seq!['}'])),
        seq![("type"@, Json::Text(tag))] + none,
        rest,
    );
    assert(seq![("type"@, Json::Text(tag))] + none =~= seq![("type"@, Json::Text(tag))]);
}

/// A message that begins with its type and the name of its part, and goes on
/// with the part.
proof fn message_with_a_part_is_read(
    label: Seq<char>,
    tag: Seq<char>,
    name: Seq<char>,
    written: Seq<char>,
    value: Json,
)
    requires
        label == seq!['{'] + (quoted("type"@) + (seq![':'] + (quoted(tag) + (seq![','] + (quoted(name)
            + seq![':']))))),
        read_value(written + seq!['}']) == Some((value, seq!['}'])),
    ensures
        read_json(label + written + seq!['}']) == Some(
            Json::Object(seq![("type"@, Json::Text(tag)), (name, value)]),
        ),
{
    let none = Seq::<(Seq<char>, Json)>::empty();
    let rest = Seq::<char>::empty();
    assert(seq!['}'] + rest =~= seq!['}']);
    brace_is_read(rest);
    further_member_is_read(name, written, value, seq!['}'], none, rest);
    let after = seq![','] + (quoted(name) + (seq![':'] + (written + seq!['}'])));
    let members = seq![(name, value)] + none;
    quoted_is_read(tag, after);
    member_is_read("type"@, quoted(tag), Json::Text(tag), after, members, rest);
    object_is_read(
        quoted("type"@) + (seq![':'] + (quoted(tag) + after)),
        seq![("type"@, Json::Text(tag))] + members,
        rest,
    );
    assert(seq![("type"@, Json::Text(tag))] + members =~= seq![
        ("type"@, Json::Text(tag)),
        (name, value),
    ]);
    part_after_label(quoted("type"@), quoted(tag), quoted(name), written);
}

proof fn part_after_label(a: Seq<char>, b: Seq<char>, c: Seq<char>, d: Seq<char>)
    ensures
        seq!['{'] + (a + (seq![':'] + (b + (seq![','] + (c + seq![':']))))) + d + seq!['}'] == seq!['{']
            + (a + (seq![':'] + (b + (seq![','] + (c + (seq![':'] + (d + seq!['}']))))))),
{
    assert(seq!['{'] + (a + (seq![':'] + (b + (seq![','] + (c + seq![':']))))) + d + seq!['}']
        =~= seq!['{'] + (a + (seq![':'] + (b + (seq![','] + (c + (seq![':'] + (d + seq!['}']))))))));
}

/// What a written message reads back as: an object with the message's type
/// and, where it has one, its part, and nothing else.
pub open spec fn meaning(message: ClientMessage) -> Json {
    match message {
        ClientMessage::CreateSession => Json::Object(
            seq![("type"@, Json::Text("create-session"@))],
        ),
        ClientMessage::JoinSession { pin } => Json::Object(
            seq![("type"@, Json::Text("join-session"@)), ("pin"@, Json::Text(pin@))],
        ),
        ClientMessage::Offer { sdp } => Json::Object(
            seq![("type"@, Json::Text("offer"@)), ("sdp"@, Json::Object(sdp_members(sdp)))],
        ),
        ClientMessage::Answer { sdp } => Json::Object(
            seq![("type"@, Json::Text("answer"@)), ("sdp"@, Json::Object(sdp_members(sdp)))],
        ),
        ClientMessage::IceCandidate { candidate: Some(c) } => Json::Object(
            seq![
                ("type"@, Json::Text("ice-candidate"@)),
                ("candidate"@, Json::Object(candidate_members(c))),
            ],
        ),
        ClientMessage::IceCandidate { candidate: None } => Json::Object(
            seq![("type"@, Json::Text("ice-candidate"@))],
        ),
        ClientMessage::EndSession => Json::Object(seq![("type"@, Json::Text("end-session"@))]),
    }
}

/// Whatever the host writes is one JSON value and reads back as what was
/// meant, with every part in full.
pub proof fn a_written_message_reads_back(message: ClientMessage)
    ensures
        read_json(client_json(message)) == Some(meaning(message)),
{
    match message {
        ClientMessage::CreateSession => {
            labels_of_messages();
            bare_message_is_read("create-session"@);
        },
        ClientMessage::EndSession => {
            labels_of_messages();
            bare_message_is_read("end-session"@);
        },
        ClientMessage::JoinSession { pin } => {
            join_session_is_read(pin);
        },
        ClientMessage::Offer { sdp } => {
            offer_is_read(sdp);
        },
        ClientMessage::Answer { sdp } => {
            answer_is_read(sdp);
        },
        ClientMessage::IceCandidate { candidate } => {
            match candidate {
                Some(c) => {
                    candidate_message_is_read(c);
                },
                None => {
                    labels_of_messages();
                    bare_message_is_read("ice-candidate"@);
                },
            }
        },
    }
}

proof fn join_session_is_read(pin: String)
    ensures
        read_json(client_json(ClientMessage::JoinSession { pin })) == Some(
            meaning(ClientMessage::JoinSession { pin }),
        ),
{
    labels_of_messages_with_a_part();
    labels_of_a_candidate();
    quoted_is_read(pin@, seq!['}']);
    message_with_a_part_is_read(
        "{\"type\":\"join-session\",\"pin\":"@,
        "join-session"@,
        "pin"@,
        quoted(pin@),
        Json::Text(pin@),
    );
}

proof fn offer_is_read(sdp: SdpPayload)
    ensures
        read_json(client_json(ClientMessage::Offer { sdp })) == Some(
            meaning(ClientMessage::Offer { sdp }),
        ),
{
    labels_of_messages_with_a_part();
    labels_of_a_candidate();
    a_written_description_reads_back(sdp, seq!['}']);
    message_with_a_part_is_read(
        "{\"type\":\"offer\",\"sdp\":"@,
        "offer"@,
        "sdp"@,
        sdp_json(sdp@),
        Json::Object(sdp_members(sdp)),
    );
}

proof fn answer_is_read(sdp: SdpPayload)
    ensures
        read_json(client_json(ClientMessage::Answer { sdp })) == Some(
            meaning(ClientMessage::Answer { sdp }),
        ),
{
    labels_of_messages_with_a_part();
    labels_of_a_candidate();
    a_written_description_reads_back(sdp, seq!['}']);
    message_with_a_part_is_read(
        "{\"type\":\"answer\",\"sdp\":"@,
        "answer"@,
        "sdp"@,
        sdp_json(sdp@),
        Json::Object(sdp_members(sdp)),
    );
}

proof fn candidate_message_is_read(c: IceCandidateInit)
    ensures
        read_json(client_json(ClientMessage::IceCandidate { candidate: Some(c) })) == Some(
            meaning(ClientMessage::IceCandidate { candidate: Some(c) }),
        ),
{
    labels_of_messages_with_a_part();
    labels_of_a_candidate();
    candidate_is_read(c, seq!['}']);
    message_with_a_part_is_read(
        "{\"type\":\"ice-candidate\",\"candidate\":"@,
        "ice-candidate"@,
        "candidate"@,
        candidate_json(c@),
        Json::Object(candidate_members(c)),
    );
}

} // verus!
