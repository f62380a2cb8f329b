//! Text helpers: trimming, splitting on a separator, decimal numerals.
//!
//! Text is modelled as its sequence of characters, `Seq<char>`.

use vstd::prelude::*;
use vstd::string::*;

verus! {

/// Whether `c` counts as white space: the answer of `char::is_whitespace`,
/// which goes by the Unicode property `White_Space`.
pub uninterp spec fn is_white_space(c: char) -> bool;

/// Calls `char::is_whitespace`. Nothing is proved of it: the contract only
/// gives the answer its name, [`is_white_space`], so that the same character
/// always counts the same way.
#[verifier::external_body]
pub(crate) fn white_space(c: char) -> (white: bool)
    ensures
        white == is_white_space(c),
{
    c.is_whitespace()
}

/// `s` without its leading white space.
pub open spec fn trimmed_start(s: Seq<char>) -> Seq<char>
    decreases s.len(),
{
    if s.len() > 0 && is_white_space(s.first()) {
        trimmed_start(s.drop_first())
    } else {
        s
    }
}

/// `s` without its trailing white space.
pub open spec fn trimmed_end(s: Seq<char>) -> Seq<char>
    decreases s.len(),
{
    if s.len() > 0 && is_white_space(s.last()) {
        trimmed_end(s.drop_last())
    } else {
        s
    }
}

/// `s` without the white space at either end.
pub open spec fn trimmed(s: Seq<char>) -> Seq<char> {
    trimmed_end(trimmed_start(s))
}

/// The pieces into which the occurrences of `sep` cut `s`: one more piece than
/// there are separators, so the empty text is one empty piece.
pub open spec fn pieces(s: Seq<char>, sep: char) -> Seq<Seq<char>>
    decreases s.len(),
{
    if s.len() == 0 {
        seq![Seq::empty()]
    } else if s.last() == sep {
        pieces(s.drop_last(), sep).push(Seq::empty())
    } else {
        let before = pieces(s.drop_last(), sep);
        before.drop_last().push(before.last().push(s.last()))
    }
}

/// The character sequences of a list of strings.
pub open spec fn texts(strings: Seq<String>) -> Seq<Seq<char>> {
    strings.map_values(|s: String| s@)
}

/// The decimal digit for `d`.
pub open spec fn digit(d: nat) -> char
    recommends
        d < 10,
{
    if d == 0 {
        '0'
    } else if d == 1 {
        '1'
    } else if d == 2 {
        '2'
    } else if d == 3 {
        '3'
    } else if d == 4 {
        '4'
    } else if d == 5 {
        '5'
    } else if d == 6 {
        '6'
    } else if d == 7 {
        '7'
    } else if d == 8 {
        '8'
    } else {
        '9'
    }
}

/// The decimal numeral of `n`, without leading zeros.
pub open spec fn decimal(n: nat) -> Seq<char>
    decreases n,
{
    if n < 10 {
        seq![digit(n)]
    } else {
        decimal(n / 10).push(digit(n % 10))
    }
}

/// `parts` put together again with `sep` between them.
pub open spec fn joined(parts: Seq<Seq<char>>, sep: char) -> Seq<char>
    decreases parts.len(),
{
    if parts.len() == 0 {
        Seq::empty()
    } else if parts.len() == 1 {
        parts[0]
    } else {
        joined(parts.drop_last(), sep).push(sep) + parts.last()
    }
}

/// A text always cuts into at least one piece.
pub proof fn lemma_pieces_nonempty(s: Seq<char>, sep: char)
    ensures
        pieces(s, sep).len() >= 1,
    decreases s.len(),
{
    if s.len() > 0 {
        lemma_pieces_nonempty(s.drop_last(), sep);
    }
}

/// No piece holds the separator.
pub proof fn lemma_pieces_hold_no_separator(s: Seq<char>, sep: char)
    ensures
        forall|i: int, j: int|
            0 <= i < pieces(s, sep).len() && 0 <= j < pieces(s, sep)[i].len() ==> pieces(
                s,
                sep,
            )[i][j] != sep,
    decreases s.len(),
{
    if s.len() > 0 {
        lemma_pieces_hold_no_separator(s.drop_last(), sep);
        lemma_pieces_nonempty(s.drop_last(), sep);
    }
}

/// The pieces, put together again with the separator between them, are the
/// text that was cut.
pub proof fn lemma_pieces_join(s: Seq<char>, sep: char)
    ensures
        joined(pieces(s, sep), sep) == s,
    decreases s.len(),
{
    if s.len() == 0 {
        assert(joined(pieces(s, sep), sep) =~= s);
    } else {
        let front = s.drop_last();
        let before = pieces(front, sep);
        lemma_pieces_join(front, sep);
        lemma_pieces_nonempty(front, sep);
        if s.last() == sep {
            let now = before.push(Seq::empty());
            assert(now.drop_last() == before);
            assert(joined(now, sep) =~= front.push(sep));
            assert(front.push(sep) == s);
        } else {
            let grown = before.last().push(s.last());
            let now = before.drop_last().push(grown);
            assert(now.drop_last() == before.drop_last());
            if before.len() == 1 {
                assert(joined(now, sep) =~= front.push(s.last()));
            } else {
                assert(joined(now, sep) =~= (joined(before.drop_last(), sep).push(sep)
                    + before.last()).push(s.last()));
            }
            assert(front.push(s.last()) == s);
        }
    }
}

/// What leading white space is: `trimmed_start(s)` is `s` from some place on,
/// all before that place is white space, and what is left does not begin with
/// white space.
proof fn lemma_trimmed_start(s: Seq<char>) -> (i: int)
    ensures
        0 <= i <= s.len(),
        trimmed_start(s) == s.subrange(i, s.len() as int),
        forall|k: int| 0 <= k < i ==> is_white_space(#[trigger] s[k]),
        i < s.len() ==> !is_white_space(s[i]),
    decreases s.len(),
{
    if s.len() > 0 && is_white_space(s.first()) {
        let rest = s.drop_first();
        let inner = lemma_trimmed_start(rest);
        assert(rest.subrange(inner, rest.len() as int) == s.subrange(inner + 1, s.len() as int));
        assert forall|k: int| 0 <= k < inner + 1 implies is_white_space(#[trigger] s[k]) by {
            if k > 0 {
                assert(s[k] == rest[k - 1]);
            }
        }
        inner + 1
    } else {
        assert(s.subrange(0, s.len() as int) == s);
        0
    }
}

/// What trailing white space is, as [`lemma_trimmed_start`] for the other
/// end.
proof fn lemma_trimmed_end(s: Seq<char>) -> (j: int)
    ensures
        0 <= j <= s.len(),
        trimmed_end(s) == s.subrange(0, j),
        forall|k: int| j <= k < s.len() ==> is_white_space(#[trigger] s[k]),
        0 < j ==> !is_white_space(s[j - 1]),
    decreases s.len(),
{
    if s.len() > 0 && is_white_space(s.last()) {
        let rest = s.drop_last();
        let inner = lemma_trimmed_end(rest);
        assert(rest.subrange(0, inner) == s.subrange(0, inner));
        assert forall|k: int| inner <= k < s.len() implies is_white_space(#[trigger] s[k]) by {
            if k < s.len() - 1 {
                assert(s[k] == rest[k]);
            }
        }
        inner
    } else {
        assert(s.subrange(0, s.len() as int) == s);
        s.len() as int
    }
}

/// Trimming keeps a stretch of the text and drops white space only: all that
/// lies before the stretch and all that lies after it is white space.
pub proof fn lemma_trimmed_drops_white_space(s: Seq<char>)
    ensures
        exists|i: int, j: int|
            0 <= i <= j <= s.len() && trimmed(s) == #[trigger] s.subrange(i, j) && forall|k: int|
                0 <= k < i || j <= k < s.len() ==> is_white_space(#[trigger] s[k]),
{
    let i = lemma_trimmed_start(s);
    let core = s.subrange(i, s.len() as int);
    let width = lemma_trimmed_end(core);
    let j = i + width;
    assert(core.subrange(0, width) == s.subrange(i, j));
    assert forall|k: int| 0 <= k < i || j <= k < s.len() implies is_white_space(
        #[trigger] s[k],
    ) by {
        if k >= j {
            assert(s[k] == core[k - i]);
        }
    }
    assert(trimmed(s) == s.subrange(i, j));
}

/// Trimming drops all the white space at the ends: what is left neither
/// begins nor ends with white space.
pub proof fn lemma_trimmed_ends_are_not_white_space(s: Seq<char>)
    ensures
        trimmed(s).len() > 0 ==> !is_white_space(trimmed(s).first()) && !is_white_space(
            trimmed(s).last(),
        ),
{
    let i = lemma_trimmed_start(s);
    let core = s.subrange(i, s.len() as int);
    let width = lemma_trimmed_end(core);
    assert(trimmed(s) == core.subrange(0, width));
    if width > 0 {
        assert(core.subrange(0, width).first() == core[0]);
        assert(core[0] == s[i]);
        assert(core.subrange(0, width).last() == core[width - 1]);
    }
}

/// The characters of `s`, in order.
pub fn chars_of(s: &str) -> (chars: Vec<char>)
    ensures
        chars@ == s@,
{
    let mut chars: Vec<char> = Vec::new();
    for c in it: s.chars()
        invariant
            it.seq() == s@,
            chars@ == s@.take(it.index() as int),
    {
        chars.push(c);
    }
    chars
}

/// Removes the white space at both ends of `s`.
pub fn trim(s: &str) -> (out: String)
    ensures
        out@ == trimmed(s@),
{
    let chars = chars_of(s);
    let n: usize = chars.len();
    let mut start: usize = 0;
    assert(s@.subrange(0, n as int) == s@);
    while start < n && white_space(chars[start])
        invariant
            chars@ == s@,
            n == chars.len(),
            start <= n,
            trimmed_start(s@) == trimmed_start(s@.subrange(start as int, n as int)),
        decreases n - start,
    {
        assert(s@.subrange(start as int, n as int).drop_first() == s@.subrange(
            start + 1,
            n as int,
        ));
        start += 1;
    }
    let ghost rest = s@.subrange(start as int, n as int);
    assert(trimmed_start(s@) == rest);
    let mut end: usize = n;
    while end > start && white_space(chars[end - 1])
        invariant
            chars@ == s@,
            n == chars.len(),
            start <= end <= n,
            trimmed_end(rest) == trimmed_end(s@.subrange(start as int, end as int)),
        decreases end - start,
    {
        assert(s@.subrange(start as int, end as int).drop_last() == s@.subrange(
            start as int,
            end - 1,
        ));
        end -= 1;
    }
    String::from_str(s.substring_char(start, end))
}

/// Cuts `s` at every occurrence of `sep`.
pub fn split(s: &str, sep: char) -> (out: Vec<String>)
    ensures
        texts(out@) == pieces(s@, sep),
{
    let chars = chars_of(s);
    let n: usize = chars.len();
    let mut out: Vec<String> = Vec::new();
    let mut start: usize = 0;
    let mut i: usize = 0;
    assert(s@.take(0) == Seq::<char>::empty());
    assert(texts(out@).push(s@.subrange(0, 0)) == pieces(s@.take(0), sep));
    while i < n
        invariant
            chars@ == s@,
            n == chars.len(),
            start <= i <= n,
            texts(out@).push(s@.subrange(start as int, i as int)) == pieces(s@.take(i as int), sep),
        decreases n - i,
    {
        let ghost done = texts(out@);
        let ghost open_piece = s@.subrange(start as int, i as int);
        assert(s@.take(i + 1).drop_last() == s@.take(i as int));
        assert(done.push(open_piece).drop_last() == done);
        if chars[i] == sep {
            out.push(String::from_str(s.substring_char(start, i)));
            start = i + 1;
            assert(texts(out@) == done.push(open_piece));
            assert(s@.subrange(start as int, i + 1) == Seq::<char>::empty());
        } else {
            assert(s@.subrange(start as int, i + 1) == open_piece.push(s@[i as int]));
        }
        i += 1;
    }
    assert(s@.take(n as int) == s@);
    let ghost done = texts(out@);
    out.push(String::from_str(s.substring_char(start, n)));
    assert(texts(out@) == done.push(s@.subrange(start as int, n as int)));
    out
}

/// The one-character text of the decimal digit for `d`.
fn digit_text(d: u32) -> (text: &'static str)
    requires
        d < 10,
    ensures
        text@ == seq![digit(d as nat)],
{
    proof {
        reveal_strlit("0");
        reveal_strlit("1");
        reveal_strlit("2");
        reveal_strlit("3");
        reveal_strlit("4");
        reveal_strlit("5");
        reveal_strlit("6");
        reveal_strlit("7");
        reveal_strlit("8");
        reveal_strlit("9");
    }
    let text = if d == 0 {
        "0"
    } else if d == 1 {
        "1"
    } else if d == 2 {
        "2"
    } else if d == 3 {
        "3"
    } else if d == 4 {
        "4"
    } else if d == 5 {
        "5"
    } else if d == 6 {
        "6"
    } else if d == 7 {
        "7"
    } else if d == 8 {
        "8"
    } else {
        "9"
    };
    assert(text@ =~= seq![digit(d as nat)]);
    text
}

/// Writes `n` in decimal.
pub fn decimal_text(n: u32) -> (out: String)
    ensures
        out@ == decimal(n as nat),
    decreases n,
{
    if n < 10 {
        String::from_str(digit_text(n))
    } else {
        let mut out = decimal_text(n / 10);
        out.append(digit_text(n % 10));
        out
    }
}

} // verus!
