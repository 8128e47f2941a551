//! Character classification and character-sequence access for string inputs.
//!
//! The Unicode `White_Space` property is a short fixed list of code points and is
//! written out here; the `Alphabetic` property is a large table, given to this
//! library by `char::is_alphabetic` and named here.
use vstd::prelude::*;

verus! {

/// Whether `c` has the Unicode `White_Space` property: U+0009 to U+000D,
/// U+0020, U+0085, U+00A0, U+1680, U+2000 to U+200A, U+2028, U+2029, U+202F,
/// U+205F and U+3000.
pub open spec fn is_white_space(c: char) -> bool {
    let n = c as u32;
    ||| 0x09 <= n <= 0x0D
    ||| n == 0x20
    ||| n == 0x85
    ||| n == 0xA0
    ||| n == 0x1680
    ||| 0x2000 <= n <= 0x200A
    ||| n == 0x2028
    ||| n == 0x2029
    ||| n == 0x202F
    ||| n == 0x205F
    ||| n == 0x3000
}

/// Whether `c` has the Unicode `Alphabetic` property, as `char::is_alphabetic` reports it.
pub uninterp spec fn is_alphabetic(c: char) -> bool;

/// Whether `c` is white space, as `char::is_whitespace` decides it.
pub fn char_is_whitespace(c: char) -> (r: bool)
    ensures
        r == is_white_space(c),
{
    let n = c as u32;
    (0x09 <= n && n <= 0x0D) || n == 0x20 || n == 0x85 || n == 0xA0 || n == 0x1680 || (0x2000 <= n
        && n <= 0x200A) || n == 0x2028 || n == 0x2029 || n == 0x202F || n == 0x205F || n == 0x3000
}

/// A letter of a common alphabet: the basic Latin letters `A`-`Z` and
/// `a`-`z`, the letters of Latin-1 (U+00C0 to U+00FF but for U+00D7 and
/// U+00F7) and of Latin Extended-A (U+0100 to U+017F), the basic Greek
/// letters (U+0391 to U+03A9 but for the unassigned U+03A2, and U+03B1 to
/// U+03C9), the basic Cyrillic letters (U+0400 to U+045F) and the CJK
/// unified ideographs U+4E00 to U+9FA5. Each of them has the Unicode
/// `Alphabetic` property.
pub open spec fn is_common_letter(c: char) -> bool {
    let n = c as u32;
    ||| 0x41 <= n <= 0x5A
    ||| 0x61 <= n <= 0x7A
    ||| 0xC0 <= n <= 0xD6
    ||| 0xD8 <= n <= 0xF6
    ||| 0xF8 <= n <= 0x17F
    ||| 0x391 <= n <= 0x3A1
    ||| 0x3A3 <= n <= 0x3A9
    ||| 0x3B1 <= n <= 0x3C9
    ||| 0x400 <= n <= 0x45F
    ||| 0x4E00 <= n <= 0x9FA5
}

/// An ASCII character that is not a letter: a digit, a punctuation mark, a
/// symbol, a space or a control character. None of them has the Unicode
/// `Alphabetic` property.
pub open spec fn is_ascii_non_letter(c: char) -> bool {
    (c as u32) < 0x80 && !is_common_letter(c)
}

/// No white-space character is a letter of a common alphabet.
pub proof fn lemma_white_space_is_no_letter(c: char)
    ensures
        is_white_space(c) ==> !is_common_letter(c),
{
}

/// Calls `char::is_alphabetic`. Claimed: the answer depends on `c` alone
/// (std documents it as the Unicode `Alphabetic` property of `c`), so it is
/// the named value `is_alphabetic(c)`; by that property it holds for every
/// letter of a common alphabet and for no ASCII character but the letters.
#[verifier::external_body]
pub fn char_is_alphabetic(c: char) -> (r: bool)
    ensures
        r == is_alphabetic(c),
        is_common_letter(c) ==> r,
        is_ascii_non_letter(c) ==> !r,
{
    c.is_alphabetic()
}

/// The characters of `s`, in order.
pub fn chars_of(s: &str) -> (v: Vec<char>)
    ensures
        v@ == s@,
{
    let mut v: Vec<char> = Vec::new();
    for c in it: s.chars()
        invariant
            v@ == it.seq().take(it.index() as int),
    {
        v.push(c);
    }
    v
}

} // verus!
