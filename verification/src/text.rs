//! Whitespace trimming over character sequences.

use vstd::prelude::*;

verus! {

/// The whitespace characters that trimming removes: the characters with
/// the Unicode `White_Space` property — the ASCII whitespace set (space,
/// tab, line feed, vertical tab, form feed, carriage return), next line,
/// no-break space, ogham space mark, the en-quad through hair-space range,
/// line and paragraph separators, narrow no-break space, medium
/// mathematical space, and ideographic space.
pub open spec fn is_ws(c: char) -> bool {
    c == ' ' || c == '\t' || c == '\n' || c == '\r' || c == '\u{b}' || c == '\u{c}' || c
        == '\u{85}' || c == '\u{a0}' || c == '\u{1680}' || ('\u{2000}' <= c && c <= '\u{200a}') || c
        == '\u{2028}' || c == '\u{2029}' || c == '\u{202f}' || c == '\u{205f}' || c == '\u{3000}'
}

/// `s` with its leading whitespace removed.
pub open spec fn trim_start(s: Seq<char>) -> Seq<char>
    decreases s.len(),
{
    if s.len() > 0 && is_ws(s[0]) {
        trim_start(s.drop_first())
    } else {
        s
    }
}

/// `s` with its trailing whitespace removed.
pub open spec fn trim_end(s: Seq<char>) -> Seq<char>
    decreases s.len(),
{
    if s.len() > 0 && is_ws(s.last()) {
        trim_end(s.drop_last())
    } else {
        s
    }
}

/// `s` with leading and trailing whitespace removed.
pub open spec fn trimmed(s: Seq<char>) -> Seq<char> {
    trim_end(trim_start(s))
}

fn is_ws_char(c: char) -> (r: bool)
    ensures
        r == is_ws(c),
{
    c == ' ' || c == '\t' || c == '\n' || c == '\r' || c == '\u{b}' || c == '\u{c}' || c
        == '\u{85}' || c == '\u{a0}' || c == '\u{1680}' || ('\u{2000}' <= c && c <= '\u{200a}') || c
        == '\u{2028}' || c == '\u{2029}' || c == '\u{202f}' || c == '\u{205f}' || c == '\u{3000}'
}

/// Remove leading and trailing whitespace from a string slice.
pub fn trim_str(s: &str) -> (r: &str)
    ensures
        r@ == trimmed(s@),
{
    let n = s.unicode_len();
    let ghost sv = s@;
    let mut i: usize = 0;
    proof {
        assert(sv.subrange(0, n as int) =~= sv);
    }
    while i < n && is_ws_char(s.get_char(i))
        invariant
            i <= n,
            n == sv.len(),
            sv == s@,
            trim_start(sv) == trim_start(sv.subrange(i as int, n as int)),
        decreases n - i,
    {
        proof {
            assert(sv.subrange(i as int, n as int).drop_first() =~= sv.subrange(
                i as int + 1,
                n as int,
            ));
        }
        i = i + 1;
    }
    proof {
        if i == n {
            assert(sv.subrange(i as int, n as int) =~= Seq::<char>::empty());
        }
        assert(trim_start(sv) == sv.subrange(i as int, n as int));
    }
    let mut j: usize = n;
    while j > i && is_ws_char(s.get_char(j - 1))
        invariant
            i <= j <= n,
            n == sv.len(),
            sv == s@,
            trim_start(sv) == sv.subrange(i as int, n as int),
            trim_end(sv.subrange(i as int, n as int)) == trim_end(
                sv.subrange(i as int, j as int),
            ),
        decreases j,
    {
        proof {
            assert(sv.subrange(i as int, j as int).drop_last() =~= sv.subrange(
                i as int,
                j as int - 1,
            ));
        }
        j = j - 1;
    }
    proof {
        if j == i {
            assert(sv.subrange(i as int, j as int) =~= Seq::<char>::empty());
        }
        assert(trimmed(sv) == sv.subrange(i as int, j as int));
    }
    s.substring_char(i, j)
}

} // verus!
