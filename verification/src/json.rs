//! What a JSON text means, as far as the signaling protocol writes JSON:
//! strings, whole numbers and objects, without white space between them.
//!
//! This is the other side of the wire, as a specification: the laws on what
//! the host writes are stated over what is read here.
use crate::text::{digits_value, is_digit};
use vstd::prelude::*;

verus! {

/// A JSON value.
pub enum Json {
    Text(Seq<char>),
    Number(nat),
    /// The members in the order in which they are written.
    Object(Seq<(Seq<char>, Json)>),
}

/// The number that a hexadecimal digit of either case stands for.
pub open spec fn nibble(c: char) -> Option<int> {
    if '0' <= c <= '9' {
        Some(c as int - '0' as int)
    } else if 'a' <= c <= 'f' {
        Some(c as int - 'a' as int + 10)
    } else if 'A' <= c <= 'F' {
        Some(c as int - 'A' as int + 10)
    } else {
        None
    }
}

/// The character that four hexadecimal digits stand for.
pub open spec fn code_point(a: char, b: char, c: char, d: char) -> Option<char> {
    match (nibble(a), nibble(b), nibble(c), nibble(d)) {
        (Some(a), Some(b), Some(c), Some(d)) => Some((4096 * a + 256 * b + 16 * c + d) as char),
        _ => None,
    }
}

/// The character that a backslash and `c` stand for.
pub open spec fn short_escape(c: char) -> Option<char> {
    if c == '"' || c == '\\' || c == '/' {
        Some(c)
    } else if c == 'b' {
        Some('\u{8}')
    } else if c == 'f' {
        Some('\u{c}')
    } else if c == 'n' {
        Some('\n')
    } else if c == 'r' {
        Some('\r')
    } else if c == 't' {
        Some('\t')
    } else {
        None
    }
}

/// `c` before what was read of the rest.
pub open spec fn before_text(c: char, read: Option<(Seq<char>, Seq<char>)>) -> Option<
    (Seq<char>, Seq<char>),
> {
    match read {
        Some((text, rest)) => Some((seq![c] + text, rest)),
        None => None,
    }
}

/// Reads a string whose opening quote is past: its text, and what follows the
/// closing quote.
pub open spec fn read_string(t: Seq<char>) -> Option<(Seq<char>, Seq<char>)>
    decreases t.len(),
{
    if t.len() == 0 {
        None
    } else if t[0] == '"' {
        Some((Seq::empty(), t.skip(1)))
    } else if t[0] == '\\' {
        if t.len() >= 6 && t[1] == 'u' {
            match code_point(t[2], t[3], t[4], t[5]) {
                Some(c) => before_text(c, read_string(t.skip(6))),
                None => None,
            }
        } else if t.len() >= 2 {
            match short_escape(t[1]) {
                Some(c) => before_text(c, read_string(t.skip(2))),
                None => None,
            }
        } else {
            None
        }
    } else if (t[0] as u32) < 0x20 {
        None
    } else {
        before_text(t[0], read_string(t.skip(1)))
    }
}

/// How many digits a text starts with.
pub open spec fn leading_digits(t: Seq<char>) -> nat
    decreases t.len(),
{
    if t.len() > 0 && is_digit(t[0]) {
        1 + leading_digits(t.skip(1))
    } else {
        0
    }
}

/// Reads a value: the value, and what follows it.
pub open spec fn read_value(t: Seq<char>) -> Option<(Json, Seq<char>)>
    decreases t.len(),
{
    if t.len() == 0 {
        None
    } else if t[0] == '"' {
        match read_string(t.skip(1)) {
            Some((text, rest)) => Some((Json::Text(text), rest)),
            None => None,
        }
    } else if t[0] == '{' {
        if t.len() > 1 && t[1] == '}' {
            Some((Json::Object(Seq::empty()), t.skip(2)))
        } else {
            match read_members(t.skip(1)) {
                Some((members, rest)) => Some((Json::Object(members), rest)),
                None => None,
            }
        }
    } else if is_digit(t[0]) && (t[0] != '0' || leading_digits(t) == 1) {
        let n = leading_digits(t) as int;
        Some((Json::Number(digits_value(t.take(n))), t.skip(n)))
    } else {
        None
    }
}

/// Reads a member and those that follow it, up to the closing brace.
pub open spec fn read_members(t: Seq<char>) -> Option<(Seq<(Seq<char>, Json)>, Seq<char>)>
    decreases t.len(),
{
    if t.len() == 0 || t[0] != '"' {
        None
    } else {
        match read_string(t.skip(1)) {
            Some((name, after)) => if 0 < after.len() < t.len() && after[0] == ':' {
                match read_value(after.skip(1)) {
                    Some((value, more)) => if more.len() < t.len() {
                        match read_more(more) {
                            Some((members, rest)) => Some((seq![(name, value)] + members, rest)),
                            None => None,
                        }
                    } else {
                        None
                    },
                    None => None,
                }
            } else {
                None
            },
            None => None,
        }
    }
}

/// Reads what follows a member: further members, or the closing brace.
pub open spec fn read_more(t: Seq<char>) -> Option<(Seq<(Seq<char>, Json)>, Seq<char>)>
    decreases t.len(),
{
    if t.len() == 0 {
        None
    } else if t[0] == '}' {
        Some((Seq::empty(), t.skip(1)))
    } else if t[0] == ',' {
        read_members(t.skip(1))
    } else {
        None
    }
}

/// The value that a whole text stands for; `None` if it is not the JSON text
/// of one value.
pub open spec fn read_json(t: Seq<char>) -> Option<Json> {
    match read_value(t) {
        Some((value, rest)) => if rest.len() == 0 {
            Some(value)
        } else {
            None
        },
        None => None,
    }
}

/// The number of leading digits of a row of digits with something else behind
/// it.
pub proof fn digits_lead(d: Seq<char>, rest: Seq<char>)
    requires
        forall|i: int| 0 <= i < d.len() ==> is_digit(#[trigger] d[i]),
        rest.len() > 0 ==> !is_digit(rest[0]),
    ensures
        leading_digits(d + rest) == d.len(),
    decreases d.len(),
{
    if d.len() > 0 {
        let t = d + rest;
        assert(t.skip(1) =~= d.drop_first() + rest);
        assert forall|i: int| 0 <= i < d.drop_first().len() implies is_digit(
            #[trigger] d.drop_first()[i],
        ) by {
            assert(is_digit(d[i + 1]));
        }
        digits_lead(d.drop_first(), rest);
        assert(is_digit(d[0]));
    } else {
        assert(d + rest =~= rest);
    }
}

} // verus!
