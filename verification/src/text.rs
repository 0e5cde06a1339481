//! Small text helpers: joining, decimal numbers, comma-separated lists.
use vstd::prelude::*;

verus! {

/// `head` followed by `tail`.
pub fn prefixed(head: &str, tail: &str) -> (text: String)
    ensures
        text@ == head@ + tail@,
{
    head.to_owned().concat(tail)
}

/// Whether `text` holds the characters of `name`.
pub fn same_text(text: &String, name: &str) -> (same: bool)
    ensures
        same == (text@ == name@),
{
    *text == name.to_owned()
}

/// The characters of each string.
pub open spec fn texts(list: Seq<String>) -> Seq<Seq<char>> {
    list.map_values(|s: String| s@)
}

/// The decimal digit that stands for `d`.
pub open spec fn digit(d: nat) -> char {
    if d == 0 {
        '0'
    } else if d == 1 {
        '1'
    } else if d == 2 {
        '2'
    } else if d == 3 {
        '3'
    } else if d == 4 {
        '4'
    } else if d == 5 {
        '5'
    } else if d == 6 {
        '6'
    } else if d == 7 {
        '7'
    } else if d == 8 {
        '8'
    } else {
        '9'
    }
}

/// `n` in decimal notation, without leading zeros.
pub open spec fn decimal(n: nat) -> Seq<char>
    decreases n,
{
    if n < 10 {
        seq![digit(n)]
    } else {
        decimal(n / 10).push(digit(n % 10))
    }
}

fn digit_text(d: u64) -> (text: &'static str)
    requires
        d < 10,
    ensures
        text@ == seq![digit(d as nat)],
{
    proof {
        reveal_strlit("0");
        reveal_strlit("1");
        reveal_strlit("2");
        reveal_strlit("3");
        reveal_strlit("4");
        reveal_strlit("5");
        reveal_strlit("6");
        reveal_strlit("7");
        reveal_strlit("8");
        reveal_strlit("9");
    }
    let text = if d == 0 {
        "0"
    } else if d == 1 {
        "1"
    } else if d == 2 {
        "2"
    } else if d == 3 {
        "3"
    } else if d == 4 {
        "4"
    } else if d == 5 {
        "5"
    } else if d == 6 {
        "6"
    } else if d == 7 {
        "7"
    } else if d == 8 {
        "8"
    } else {
        "9"
    };
    assert(text@ =~= seq![digit(d as nat)]);
    text
}

/// Writes `n` in decimal notation.
pub fn decimal_text(n: u64) -> (text: String)
    ensures
        text@ == decimal(n as nat),
    decreases n,
{
    if n < 10 {
        digit_text(n).to_owned()
    } else {
        let text = decimal_text(n / 10).concat(digit_text(n % 10));
        assert(text@ =~= decimal(n as nat));
        text
    }
}

/// The characters that Unicode counts as white space.
pub open spec fn white_space(c: char) -> bool {
    let n = c as u32;
    ||| 0x09 <= n <= 0x0d
    ||| n == 0x20
    ||| n == 0x85
    ||| n == 0xa0
    ||| n == 0x1680
    ||| 0x2000 <= n <= 0x200a
    ||| n == 0x2028
    ||| n == 0x2029
    ||| n == 0x202f
    ||| n == 0x205f
    ||| n == 0x3000
}

fn is_white_space(c: char) -> (white: bool)
    ensures
        white == white_space(c),
{
    let n: u32 = c as u32;
    (0x09 <= n && n <= 0x0d) || n == 0x20 || n == 0x85 || n == 0xa0 || n == 0x1680 || (0x2000 <= n && n
        <= 0x200a) || n == 0x2028 || n == 0x2029 || n == 0x202f || n == 0x205f || n == 0x3000
}

/// `s` without the white space at its start.
pub open spec fn trim_start(s: Seq<char>) -> Seq<char>
    decreases s.len(),
{
    if s.len() > 0 && white_space(s[0]) {
        trim_start(s.drop_first())
    } else {
        s
    }
}

/// `s` without the white space at its end.
pub open spec fn trim_end(s: Seq<char>) -> Seq<char>
    decreases s.len(),
{
    if s.len() > 0 && white_space(s.last()) {
        trim_end(s.drop_last())
    } else {
        s
    }
}

/// `s` without the white space around it.
pub open spec fn trimmed(s: Seq<char>) -> Seq<char> {
    trim_end(trim_start(s))
}

/// The pieces of `s` between its commas; there is always at least one.
pub open spec fn comma_pieces(s: Seq<char>) -> Seq<Seq<char>>
    decreases s.len(),
{
    if s.len() == 0 {
        seq![Seq::empty()]
    } else {
        let before = comma_pieces(s.drop_last());
        if s.last() == ',' {
            before.push(Seq::empty())
        } else {
            before.drop_last().push(before.last().push(s.last()))
        }
    }
}

/// The pieces without the white space around them, except those of which
/// nothing is left.
pub open spec fn filled_entries(pieces: Seq<Seq<char>>) -> Seq<Seq<char>>
    decreases pieces.len(),
{
    if pieces.len() == 0 {
        Seq::empty()
    } else {
        let before = filled_entries(pieces.drop_last());
        let entry = trimmed(pieces.last());
        if entry.len() == 0 {
            before
        } else {
            before.push(entry)
        }
    }
}

/// The characters of `s`.
fn chars_of(s: &str) -> (chars: Vec<char>)
    ensures
        chars@ == s@,
{
    let mut chars: Vec<char> = Vec::new();
    for c in it: s.chars()
        invariant
            chars@ == it.seq().take(it.index() as int),
            it.seq() == s@,
    {
        chars.push(c);
        assert(chars@ =~= it.seq().take(it.index() + 1));
    }
    assert(s@.take(s@.len() as int) =~= s@);
    chars
}

/// Where the text between `from` and `to` starts and ends once the white
/// space around it is left out.
fn trimmed_range(chars: &Vec<char>, from: usize, to: usize) -> (range: (usize, usize))
    requires
        from <= to <= chars.len(),
    ensures
        from <= range.0 <= range.1 <= to,
        chars@.subrange(range.0 as int, range.1 as int) == trimmed(
            chars@.subrange(from as int, to as int),
        ),
{
    let mut a: usize = from;
    while a < to && is_white_space(chars[a])
        invariant
            from <= a <= to <= chars.len(),
            trim_start(chars@.subrange(a as int, to as int)) == trim_start(
                chars@.subrange(from as int, to as int),
            ),
        decreases to - a,
    {
        assert(chars@.subrange(a as int, to as int).drop_first() =~= chars@.subrange(a + 1, to as int));
        a = a + 1;
    }
    let mut b: usize = to;
    while a < b && is_white_space(chars[b - 1])
        invariant
            from <= a <= b <= to <= chars.len(),
            trim_end(chars@.subrange(a as int, b as int)) == trim_end(
                chars@.subrange(a as int, to as int),
            ),
        decreases b - a,
    {
        assert(chars@.subrange(a as int, b as int).drop_last() =~= chars@.subrange(a as int, b - 1));
        b = b - 1;
    }
    (a, b)
}

/// Splits `list` at its commas, trims each entry and leaves out empty ones.
pub fn comma_list(list: &str) -> (entries: Vec<String>)
    ensures
        texts(entries@) == filled_entries(comma_pieces(list@)),
{
    let chars = chars_of(list);
    let mut entries: Vec<String> = Vec::new();
    let mut start: usize = 0;
    let mut i: usize = 0;
    let ghost mut done: Seq<Seq<char>> = Seq::empty();
    assert(chars@.take(0).len() == 0);
    assert(chars@.subrange(0, 0) =~= Seq::empty());
    assert(comma_pieces(chars@.take(0)) =~= done.push(chars@.subrange(0, 0)));
    assert(texts(entries@) =~= filled_entries(done));
    while i < chars.len()
        invariant
            start <= i <= chars.len(),
            chars@ == list@,
            comma_pieces(chars@.take(i as int)) == done.push(chars@.subrange(start as int, i as int)),
            texts(entries@) == filled_entries(done),
        decreases chars.len() - i,
    {
        proof {
            assert(chars@.take(i + 1).drop_last() =~= chars@.take(i as int));
            assert(done.push(chars@.subrange(start as int, i as int)).drop_last() =~= done);
        }
        if chars[i] == ',' {
            push_entry(list, &chars, start, i, &mut entries, Ghost(done));
            proof {
                done = done.push(chars@.subrange(start as int, i as int));
            }
            start = i + 1;
            assert(chars@.subrange(i + 1, i + 1) =~= Seq::empty());
            assert(comma_pieces(chars@.take(i + 1)) =~= done.push(chars@.subrange(i + 1, i + 1)));
        } else {
            assert(chars@.subrange(start as int, i as int).push(chars@[i as int]) =~= chars@.subrange(
                start as int,
                i + 1,
            ));
        }
        i = i + 1;
    }
    push_entry(list, &chars, start, i, &mut entries, Ghost(done));
    assert(chars@.take(i as int) =~= list@);
    entries
}

/// Appends the entry between `from` and `to`, unless nothing is left of it.
fn push_entry(
    list: &str,
    chars: &Vec<char>,
    from: usize,
    to: usize,
    entries: &mut Vec<String>,
    Ghost(done): Ghost<Seq<Seq<char>>>,
)
    requires
        chars@ == list@,
        from <= to <= chars.len(),
        texts(old(entries)@) == filled_entries(done),
    ensures
        texts(final(entries)@) == filled_entries(done.push(chars@.subrange(from as int, to as int))),
{
    let (a, b) = trimmed_range(chars, from, to);
    let ghost piece = chars@.subrange(from as int, to as int);
    assert(done.push(piece).drop_last() =~= done);
    if a < b {
        let entry: String = list.substring_char(a, b).to_owned();
        entries.push(entry);
        assert(texts(entries@) =~= texts(old(entries)@).push(entry@));
    }
}


// ---------------------------------------------------------------------------
// What holds of them
// ---------------------------------------------------------------------------

/// The texts of strings are their characters, one for one.
pub proof fn texts_are_the_characters(list: Seq<String>)
    ensures
        texts(list).len() == list.len(),
        forall|i: int| 0 <= i < list.len() ==> #[trigger] texts(list)[i] == list[i]@,
{
}

/// Whether `c` is a decimal digit.
pub open spec fn is_digit(c: char) -> bool {
    '0' <= c <= '9'
}

/// The number that a row of digits stands for.
pub open spec fn digits_value(s: Seq<char>) -> nat
    decreases s.len(),
{
    if s.len() == 0 {
        0
    } else {
        (10 * digits_value(s.drop_last()) + (s.last() as int - '0' as int)) as nat
    }
}

/// A number in decimal notation is a row of digits without leading zeros that
/// reads back as the number.
pub proof fn decimal_reads_back(n: nat)
    ensures
        decimal(n).len() > 0,
        forall|i: int| 0 <= i < decimal(n).len() ==> is_digit(#[trigger] decimal(n)[i]),
        digits_value(decimal(n)) == n,
        decimal(n).len() > 1 ==> decimal(n)[0] != '0',
        n > 0 ==> decimal(n)[0] != '0',
    decreases n,
{
    if n < 10 {
        assert(decimal(n).drop_last() =~= Seq::empty());
        assert(digits_value(decimal(n).drop_last()) == 0);
    } else {
        decimal_reads_back(n / 10);
        assert(decimal(n).drop_last() =~= decimal(n / 10));
        assert(decimal(n)[0] == decimal(n / 10)[0]);
        assert forall|i: int| 0 <= i < decimal(n).len() implies is_digit(#[trigger] decimal(n)[i]) by {
            if i < decimal(n / 10).len() {
                assert(decimal(n)[i] == decimal(n / 10)[i]);
            }
        }
    }
}

/// White space is the tab and what follows it up to the carriage return, the
/// space, and the other blanks of Unicode; no other character is.
pub proof fn white_space_is_that_of_unicode(c: char)
    ensures
        white_space(c) <==> (c == '\t' || c == '\n' || c == '\u{b}' || c == '\u{c}' || c == '\r' || c
            == ' ' || c == '\u{85}' || c == '\u{a0}' || c == '\u{1680}' || '\u{2000}' <= c <= '\u{200a}'
            || c == '\u{2028}' || c == '\u{2029}' || c == '\u{202f}' || c == '\u{205f}' || c
            == '\u{3000}'),
{
}

/// Trimming takes white space away at either end, all of it, and nothing
/// else: what is left is the stretch between the two places that this gives.
pub proof fn trimming_takes_white_space_alone(s: Seq<char>) -> (range: (int, int))
    ensures
        0 <= range.0 <= range.1 <= s.len(),
        trimmed(s) == s.subrange(range.0, range.1),
        forall|i: int| 0 <= i < range.0 ==> white_space(#[trigger] s[i]),
        forall|i: int| range.1 <= i < s.len() ==> white_space(#[trigger] s[i]),
        range.0 < range.1 ==> !white_space(s[range.0]) && !white_space(s[range.1 - 1]),
{
    let a = trim_start_place(s);
    let t = s.subrange(a, s.len() as int);
    let b = a + trim_end_place(t);
    assert(t.subrange(0, b - a) =~= s.subrange(a, b));
    assert forall|i: int| b <= i < s.len() implies white_space(#[trigger] s[i]) by {
        assert(t[i - a] == s[i]);
    }
    if a < b {
        assert(t[b - a - 1] == s[b - 1]);
        assert(t[0] == s[a]);
    }
    (a, b)
}

proof fn trim_start_place(s: Seq<char>) -> (a: int)
    ensures
        0 <= a <= s.len(),
        trim_start(s) == s.subrange(a, s.len() as int),
        forall|i: int| 0 <= i < a ==> white_space(#[trigger] s[i]),
        a < s.len() ==> !white_space(s[a]),
    decreases s.len(),
{
    if s.len() > 0 && white_space(s[0]) {
        let rest = s.drop_first();
        let a = trim_start_place(rest);
        assert(rest.subrange(a, rest.len() as int) =~= s.subrange(a + 1, s.len() as int));
        assert forall|i: int| 0 <= i < a + 1 implies white_space(#[trigger] s[i]) by {
            if i > 0 {
                assert(rest[i - 1] == s[i]);
            }
        }
        if a + 1 < s.len() {
            assert(rest[a] == s[a + 1]);
        }
        a + 1
    } else {
        assert(s.subrange(0, s.len() as int) =~= s);
        0
    }
}

proof fn trim_end_place(s: Seq<char>) -> (b: int)
    ensures
        0 <= b <= s.len(),
        trim_end(s) == s.subrange(0, b),
        forall|i: int| b <= i < s.len() ==> white_space(#[trigger] s[i]),
        b > 0 ==> !white_space(s[b - 1]),
    decreases s.len(),
{
    if s.len() > 0 && white_space(s.last()) {
        let rest = s.drop_last();
        let b = trim_end_place(rest);
        assert(rest.subrange(0, b) =~= s.subrange(0, b));
        assert forall|i: int| b <= i < s.len() implies white_space(#[trigger] s[i]) by {
            if i < rest.len() {
                assert(rest[i] == s[i]);
            }
        }
        b
    } else {
        assert(s.subrange(0, s.len() as int) =~= s);
        s.len() as int
    }
}

/// The pieces with one comma between each two.
pub open spec fn with_commas(pieces: Seq<Seq<char>>) -> Seq<char>
    decreases pieces.len(),
{
    if pieces.len() == 0 {
        Seq::empty()
    } else if pieces.len() == 1 {
        pieces[0]
    } else {
        with_commas(pieces.drop_last()) + seq![','] + pieces.last()
    }
}

/// Commas alone separate: no piece holds one, and the pieces with one comma
/// between each two are the list again.
pub proof fn commas_alone_separate(s: Seq<char>)
    ensures
        comma_pieces(s).len() > 0,
        forall|k: int, i: int|
            0 <= k < comma_pieces(s).len() && 0 <= i < comma_pieces(s)[k].len()
                ==> #[trigger] comma_pieces(s)[k][i] != ',',
        with_commas(comma_pieces(s)) == s,
    decreases s.len(),
{
    if s.len() > 0 {
        let before = comma_pieces(s.drop_last());
        let pieces = comma_pieces(s);
        commas_alone_separate(s.drop_last());
        assert(s.drop_last().push(s.last()) =~= s);
        if s.last() == ',' {
            assert(pieces.drop_last() =~= before);
            assert(with_commas(pieces) =~= s);
        } else {
            longer_last_piece(before, s.last());
        }
        assert forall|k: int, i: int|
            0 <= k < pieces.len() && 0 <= i < pieces[k].len() implies #[trigger] pieces[k][i]
            != ',' by {
            if k < before.len() && i < before[k].len() {
                assert(before[k][i] != ',');
                assert(pieces[k][i] == before[k][i]);
            }
        }
    } else {
        assert(with_commas(comma_pieces(s)) =~= s);
    }
}

proof fn longer_last_piece(pieces: Seq<Seq<char>>, c: char)
    requires
        pieces.len() > 0,
    ensures
        with_commas(pieces.drop_last().push(pieces.last().push(c))) == with_commas(pieces).push(c),
{
    let longer = pieces.drop_last().push(pieces.last().push(c));
    assert(longer.drop_last() =~= pieces.drop_last());
    assert(with_commas(longer) =~= with_commas(pieces).push(c));
}

/// The entries are the trimmed pieces of which something is left, in order.
/// What this gives is the places of the pieces that were kept.
pub proof fn entries_are_the_pieces_that_are_left(pieces: Seq<Seq<char>>) -> (kept: Seq<int>)
    ensures
        kept.len() == filled_entries(pieces).len(),
        forall|k: int| 0 <= k < kept.len() ==> 0 <= #[trigger] kept[k] < pieces.len(),
        forall|k: int, l: int| 0 <= k < l < kept.len() ==> kept[k] < kept[l],
        forall|k: int|
            0 <= k < kept.len() ==> #[trigger] filled_entries(pieces)[k] == trimmed(pieces[kept[k]]),
        forall|i: int|
            0 <= i < pieces.len() ==> (kept.contains(i) <==> trimmed(#[trigger] pieces[i]).len() > 0),
    decreases pieces.len(),
{
    if pieces.len() == 0 {
        Seq::empty()
    } else {
        let rest = pieces.drop_last();
        let n = pieces.len() - 1;
        let before = entries_are_the_pieces_that_are_left(rest);
        let kept = if trimmed(pieces.last()).len() > 0 {
            before.push(n)
        } else {
            before
        };
        assert forall|k: int| 0 <= k < kept.len() implies #[trigger] filled_entries(pieces)[k]
            == trimmed(pieces[kept[k]]) by {
            if k < before.len() {
                assert(filled_entries(rest)[k] == trimmed(rest[before[k]]));
            }
        }
        assert forall|i: int| 0 <= i < pieces.len() implies (kept.contains(i) <==> trimmed(
            #[trigger] pieces[i],
        ).len() > 0) by {
            if i < n {
                assert(rest[i] == pieces[i]);
                if before.contains(i) {
                    let k = choose|k: int| 0 <= k < before.len() && before[k] == i;
                    assert(kept[k] == i);
                }
                if kept.contains(i) {
                    let k = choose|k: int| 0 <= k < kept.len() && kept[k] == i;
                    assert(before[k] == i);
                }
            } else {
                if trimmed(pieces.last()).len() > 0 {
                    assert(kept[before.len() as int] == n);
                } else if kept.contains(i) {
                    let k = choose|k: int| 0 <= k < kept.len() && kept[k] == i;
                    assert(before[k] < rest.len());
                }
            }
        }
        kept
    }
}

} // verus!
