//! Reading a best score back from the text it was saved as.

use vstd::prelude::*;

verus! {

/// A one-byte whitespace character: tab, line feed, vertical tab, form feed, carriage return
/// or space.
pub open spec fn is_space(b: u8) -> bool {
    b == 32 || (9 <= b && b <= 13)
}

/// The UTF-8 form of a two-byte whitespace character: U+0085 (next line) or U+00A0 (no-break
/// space).
pub open spec fn is_space2(a: u8, b: u8) -> bool {
    a == 0xC2 && (b == 0x85 || b == 0xA0)
}

/// The UTF-8 form of a three-byte whitespace character: U+1680, U+2000 to U+200A, U+2028,
/// U+2029, U+202F, U+205F or U+3000.
pub open spec fn is_space3(a: u8, b: u8, c: u8) -> bool {
    ||| a == 0xE1 && b == 0x9A && c == 0x80
    ||| a == 0xE2 && b == 0x80 && ((0x80 <= c && c <= 0x8A) || c == 0xA8 || c == 0xA9 || c == 0xAF)
    ||| a == 0xE2 && b == 0x81 && c == 0x9F
    ||| a == 0xE3 && b == 0x80 && c == 0x80
}

/// A decimal digit.
pub open spec fn is_digit(b: u8) -> bool {
    48 <= b && b <= 57
}

/// How many bytes the whitespace character that `s` starts with takes, or 0 where `s` does not
/// start with one. Whitespace is what `char::is_whitespace` counts as such: the Unicode
/// White_Space characters.
pub open spec fn leading_space_len(s: Seq<u8>) -> int {
    if s.len() >= 1 && is_space(s[0]) {
        1
    } else if s.len() >= 2 && is_space2(s[0], s[1]) {
        2
    } else if s.len() >= 3 && is_space3(s[0], s[1], s[2]) {
        3
    } else {
        0
    }
}

/// How many bytes the whitespace character that `s` ends with takes, or 0 where `s` does not
/// end with one.
pub open spec fn trailing_space_len(s: Seq<u8>) -> int {
    let n = s.len() as int;
    if n >= 1 && is_space(s[n - 1]) {
        1
    } else if n >= 2 && is_space2(s[n - 2], s[n - 1]) {
        2
    } else if n >= 3 && is_space3(s[n - 3], s[n - 2], s[n - 1]) {
        3
    } else {
        0
    }
}

/// `s` without its leading whitespace.
pub open spec fn trim_start(s: Seq<u8>) -> Seq<u8>
    decreases s.len(),
{
    let k = leading_space_len(s);
    if k > 0 {
        trim_start(s.subrange(k, s.len() as int))
    } else {
        s
    }
}

/// `s` without its trailing whitespace.
pub open spec fn trim_end(s: Seq<u8>) -> Seq<u8>
    decreases s.len(),
{
    let k = trailing_space_len(s);
    if k > 0 {
        trim_end(s.subrange(0, s.len() - k))
    } else {
        s
    }
}

/// Every byte of `s` is a digit.
pub open spec fn all_digits(s: Seq<u8>) -> bool {
    forall|i: int| 0 <= i < s.len() ==> is_digit(#[trigger] s[i])
}

/// The number the digits of `s` spell in decimal.
pub open spec fn digits_value(s: Seq<u8>) -> nat
    decreases s.len(),
{
    if s.len() == 0 {
        0
    } else {
        digits_value(s.drop_last()) * 10 + (s.last() - 48) as nat
    }
}

/// The best score that a saved text holds: surrounding whitespace is ignored, a leading `+` is
/// allowed, and the rest must be one or more digits of a number that fits in a `u16`.
/// Anything else reads as no score, 0.
pub open spec fn saved_score(text: Seq<u8>) -> nat {
    let t = trim_end(trim_start(text));
    let d = if t.len() > 0 && t[0] == 43 {
        t.drop_first()
    } else {
        t
    };
    if d.len() > 0 && all_digits(d) && digits_value(d) <= u16::MAX {
        digits_value(d)
    } else {
        0
    }
}

/// A number spelled by digits is at least the number spelled by any of its prefixes.
proof fn lemma_digits_value_prefix(s: Seq<u8>, k: int)
    requires
        all_digits(s),
        0 <= k <= s.len(),
    ensures
        digits_value(s.subrange(0, k)) <= digits_value(s),
    decreases s.len(),
{
    if k < s.len() {
        assert(s.drop_last().subrange(0, k) =~= s.subrange(0, k));
        lemma_digits_value_prefix(s.drop_last(), k);
    } else {
        assert(s.subrange(0, k) =~= s);
    }
}

/// Whether `b` is a one-byte whitespace character.
fn space_byte(b: u8) -> (r: bool)
    ensures
        r == is_space(b),
{
    b == 32 || (9 <= b && b <= 13)
}

/// Whether `a b` is a two-byte whitespace character.
fn space_pair(a: u8, b: u8) -> (r: bool)
    ensures
        r == is_space2(a, b),
{
    a == 0xC2 && (b == 0x85 || b == 0xA0)
}

/// Whether `a b c` is a three-byte whitespace character.
fn space_triple(a: u8, b: u8, c: u8) -> (r: bool)
    ensures
        r == is_space3(a, b, c),
{
    (a == 0xE1 && b == 0x9A && c == 0x80) || (a == 0xE2 && b == 0x80 && ((0x80 <= c && c <= 0x8A)
        || c == 0xA8 || c == 0xA9 || c == 0xAF)) || (a == 0xE2 && b == 0x81 && c == 0x9F) || (a
        == 0xE3 && b == 0x80 && c == 0x80)
}

/// The length of the whitespace character that `text[lo..hi]` starts with, or 0.
fn leading_space_at(text: &[u8], lo: usize, hi: usize) -> (k: usize)
    requires
        lo <= hi <= text@.len(),
    ensures
        k == leading_space_len(text@.subrange(lo as int, hi as int)),
{
    let n = hi - lo;
    if n >= 1 && space_byte(text[lo]) {
        1
    } else if n >= 2 && space_pair(text[lo], text[lo + 1]) {
        2
    } else if n >= 3 && space_triple(text[lo], text[lo + 1], text[lo + 2]) {
        3
    } else {
        0
    }
}

/// The length of the whitespace character that `text[lo..hi]` ends with, or 0.
fn trailing_space_at(text: &[u8], lo: usize, hi: usize) -> (k: usize)
    requires
        lo <= hi <= text@.len(),
    ensures
        k == trailing_space_len(text@.subrange(lo as int, hi as int)),
{
    let n = hi - lo;
    if n >= 1 && space_byte(text[hi - 1]) {
        1
    } else if n >= 2 && space_pair(text[hi - 2], text[hi - 1]) {
        2
    } else if n >= 3 && space_triple(text[hi - 3], text[hi - 2], text[hi - 1]) {
        3
    } else {
        0
    }
}

/// The best score saved in `text`, or 0 where the text holds none.
pub fn high_score_from_text(text: &[u8]) -> (r: u16)
    ensures
        r == saved_score(text@),
{
    let n = text.len();
    let mut lo: usize = 0;
    assert(text@.subrange(0, n as int) =~= text@);
    loop
        invariant
            lo <= n,
            n == text@.len(),
            trim_start(text@) == trim_start(text@.subrange(lo as int, n as int)),
        ensures
            lo <= n,
            trim_start(text@) == text@.subrange(lo as int, n as int),
        decreases n - lo,
    {
        let k = leading_space_at(text, lo, n);
        if k == 0 {
            break;
        }
        assert(text@.subrange(lo as int, n as int).subrange(k as int, n - lo) =~= text@.subrange(
            lo + k,
            n as int,
        ));
        lo = lo + k;
    }
    let mut hi: usize = n;
    loop
        invariant
            lo <= hi <= n,
            n == text@.len(),
            trim_end(trim_start(text@)) == trim_end(text@.subrange(lo as int, hi as int)),
        ensures
            lo <= hi <= n,
            trim_end(trim_start(text@)) == text@.subrange(lo as int, hi as int),
        decreases hi - lo,
    {
        let k = trailing_space_at(text, lo, hi);
        if k == 0 {
            break;
        }
        assert(text@.subrange(lo as int, hi as int).subrange(0, hi - lo - k) =~= text@.subrange(
            lo as int,
            hi - k,
        ));
        hi = hi - k;
    }
    let ghost t = text@.subrange(lo as int, hi as int);
    assert(trim_end(trim_start(text@)) == t);
    let mut start: usize = lo;
    if start < hi && text[start] == 43 {
        start = start + 1;
        assert(t.drop_first() =~= text@.subrange(start as int, hi as int));
    }
    let ghost d = text@.subrange(start as int, hi as int);
    if start == hi {
        return 0;
    }
    let mut value: u32 = 0;
    let mut i: usize = start;
    while i < hi
        invariant
            start <= i <= hi <= n,
            n == text@.len(),
            d == text@.subrange(start as int, hi as int),
            saved_score(text@) == (if d.len() > 0 && all_digits(d) && digits_value(d)
                <= u16::MAX {
                digits_value(d)
            } else {
                0
            }),
            all_digits(text@.subrange(start as int, i as int)),
            value == digits_value(text@.subrange(start as int, i as int)),
            value <= u16::MAX,
        decreases hi - i,
    {
        let b = text[i];
        let ghost prefix = text@.subrange(start as int, i as int + 1);
        assert(prefix.drop_last() =~= text@.subrange(start as int, i as int));
        if b < 48 || b > 57 {
            assert(!is_digit(d[i - start]));
            return 0;
        }
        value = value * 10 + (b - 48) as u32;
        assert(all_digits(prefix));
        if value > 65535 {
            proof {
                assert(d.subrange(0, i - start + 1) =~= prefix);
                if all_digits(d) {
                    lemma_digits_value_prefix(d, i - start + 1);
                }
            }
            return 0;
        }
        i = i + 1;
    }
    assert(text@.subrange(start as int, i as int) =~= d);
    value as u16
}

} // verus!
