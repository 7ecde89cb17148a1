//! Verified helpers on strings: blankness, prefixes, equality and the
//! decimal rendering of integers.

use vstd::prelude::*;

verus! {

/// `String::push` appends one character at the end of the string.
pub assume_specification[ String::push ](s: &mut String, ch: char)
    ensures
        final(s)@ == old(s)@.push(ch),
;

/// The characters with the Unicode property `White_Space`.
pub open spec fn white_space(c: char) -> bool {
    ||| '\u{9}' <= c <= '\u{d}'
    ||| c == '\u{20}'
    ||| c == '\u{85}'
    ||| c == '\u{a0}'
    ||| c == '\u{1680}'
    ||| '\u{2000}' <= c <= '\u{200a}'
    ||| c == '\u{2028}'
    ||| c == '\u{2029}'
    ||| c == '\u{202f}'
    ||| c == '\u{205f}'
    ||| c == '\u{3000}'
}

/// Nothing is left of `s` once surrounding white space is taken off.
pub open spec fn blank(s: Seq<char>) -> bool {
    forall|i: int| 0 <= i < s.len() ==> white_space(#[trigger] s[i])
}

/// Whether `c` has the Unicode property `White_Space`.
pub fn is_white_space(c: char) -> (r: bool)
    ensures
        r == white_space(c),
{
    ('\u{9}' <= c && c <= '\u{d}') || c == '\u{20}' || c == '\u{85}' || c == '\u{a0}' || c
        == '\u{1680}' || ('\u{2000}' <= c && c <= '\u{200a}') || c == '\u{2028}' || c == '\u{2029}'
        || c == '\u{202f}' || c == '\u{205f}' || c == '\u{3000}'
}

/// Whether `s` is empty or holds white space only.
pub fn is_blank(s: &str) -> (r: bool)
    ensures
        r == blank(s@),
{
    for c in it: s.chars()
        invariant
            it.seq() == s@,
            blank(s@.take(it.index())),
    {
        if !is_white_space(c) {
            assert(s@[it.index()] == c);
            return false;
        }
        assert(s@.take(it.index() + 1) == s@.take(it.index()).push(c));
    }
    assert(s@.take(s@.len() as int) == s@);
    true
}


/// Whether `s` begins with `prefix`.
pub(crate) fn starts_with(s: &str, prefix: &str) -> (r: bool)
    ensures
        r == prefix@.is_prefix_of(s@),
{
    let n: usize = prefix.unicode_len();
    if s.unicode_len() < n {
        return false;
    }
    let mut i: usize = 0;
    while i < n
        invariant
            n == prefix@.len(),
            n <= s@.len(),
            i <= n,
            prefix@.take(i as int) == s@.take(i as int),
        decreases n - i,
    {
        if s.get_char(i) != prefix.get_char(i) {
            assert(s@.subrange(0, n as int)[i as int] != prefix@[i as int]);
            return false;
        }
        assert(prefix@.take(i + 1) == prefix@.take(i as int).push(prefix@[i as int]));
        assert(s@.take(i + 1) == s@.take(i as int).push(s@[i as int]));
        i = i + 1;
    }
    assert(prefix@.take(n as int) == prefix@);
    true
}

/// Whether `a` and `b` hold the same characters.
pub(crate) fn same_text(a: &str, b: &str) -> (r: bool)
    ensures
        r == (a@ == b@),
{
    let r = a.unicode_len() == b.unicode_len() && starts_with(a, b);
    assert(a@.len() == b@.len() ==> a@.subrange(0, b@.len() as int) == a@);
    r
}

/// The decimal digit `d`, for `d` below ten.
pub open spec fn decimal_digit(d: int) -> char {
    ('0' as int + d) as char
}

/// The decimal text of `n`, without leading zeros.
pub open spec fn decimal(n: nat) -> Seq<char>
    decreases n,
{
    if n < 10 {
        seq![decimal_digit(n as int)]
    } else {
        decimal(n / 10).push(decimal_digit((n % 10) as int))
    }
}

/// Appends the decimal text of `n` to `out`.
pub(crate) fn append_decimal(out: &mut String, n: u32)
    ensures
        final(out)@ == old(out)@ + decimal(n as nat),
    decreases n,
{
    if n >= 10 {
        append_decimal(out, n / 10);
    }
    let d: u8 = (n % 10) as u8;
    out.push((0x30u8 + d) as char);
}

/// Joins three texts.
pub(crate) fn join3(a: &str, b: &str, c: &str) -> (r: String)
    ensures
        r@ == a@ + b@ + c@,
{
    let mut r = String::new();
    r.append(a);
    r.append(b);
    r.append(c);
    r
}

/// A `::` begins at position `i` of `path`.
pub open spec fn separator_at(path: Seq<char>, i: int) -> bool {
    &&& 0 <= i < path.len() - 1
    &&& path[i] == ':'
    &&& path[i + 1] == ':'
}

/// The part of a module path before its first `::`, all of it where there
/// is none.
pub open spec fn root_segment(path: Seq<char>) -> Seq<char>
    decreases path.len(),
{
    if path.len() == 0 || separator_at(path, 0) {
        seq![]
    } else {
        seq![path[0]] + root_segment(path.drop_first())
    }
}

/// The first segment of a module path.
pub(crate) fn first_segment(path: &str) -> (r: String)
    ensures
        r@ == root_segment(path@),
{
    let n: usize = path.unicode_len();
    let mut out = String::new();
    let mut i: usize = 0;
    assert(path@.skip(0) == path@);
    while i < n
        invariant
            n == path@.len(),
            i <= n,
            root_segment(path@) == out@ + root_segment(path@.skip(i as int)),
        decreases n - i,
    {
        let c = path.get_char(i);
        if c == ':' && i + 1 < n && path.get_char(i + 1) == ':' {
            assert(separator_at(path@.skip(i as int), 0));
            return out;
        }
        assert(path@.skip(i as int).drop_first() == path@.skip(i + 1));
        let ghost before = out@;
        out.push(c);
        assert(before + (seq![c] + root_segment(path@.skip(i + 1))) == out@ + root_segment(
            path@.skip(i + 1),
        ));
        i = i + 1;
    }
    out
}

} // verus!
