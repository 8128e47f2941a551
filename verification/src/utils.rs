//! Whitespace trimming and the detection of genuine words in a text layer.
use vstd::prelude::*;

use crate::unicode::{
    char_is_alphabetic, char_is_whitespace, chars_of, is_alphabetic, is_ascii_non_letter, is_common_letter,
    is_white_space, lemma_white_space_is_no_letter,
};

verus! {

/// Number of whitespace characters at the start of `s`.
pub open spec fn leading_ws(s: Seq<char>) -> nat
    decreases s.len(),
{
    if s.len() > 0 && is_white_space(s[0]) {
        1 + leading_ws(s.drop_first())
    } else {
        0
    }
}

/// Number of whitespace characters at the end of `s`.
pub open spec fn trailing_ws(s: Seq<char>) -> nat
    decreases s.len(),
{
    if s.len() > 0 && is_white_space(s.last()) {
        1 + trailing_ws(s.drop_last())
    } else {
        0
    }
}

/// `s` without its leading and trailing whitespace (what `str::trim` keeps).
pub open spec fn trim_ws(s: Seq<char>) -> Seq<char> {
    let t = s.skip(leading_ws(s) as int);
    t.take(t.len() - trailing_ws(t))
}

/// Every character of `s` is whitespace.
pub open spec fn all_white_space(s: Seq<char>) -> bool {
    forall|k: int| 0 <= k < s.len() ==> is_white_space(#[trigger] s[k])
}

/// `s[a..b]` is a whitespace-delimited token: a non-empty maximal run of
/// non-whitespace characters.
pub open spec fn is_token(s: Seq<char>, a: int, b: int) -> bool {
    &&& 0 <= a < b <= s.len()
    &&& (a == 0 || is_white_space(s[a - 1]))
    &&& (b == s.len() || is_white_space(s[b]))
    &&& forall|k: int| a <= k < b ==> !is_white_space(#[trigger] s[k])
}

/// `s[a..b]` is a token of at least `min` characters, all of them alphabetic.
pub open spec fn is_real_word(s: Seq<char>, a: int, b: int, min: nat) -> bool {
    &&& is_token(s, a, b)
    &&& b - a >= min
    &&& forall|k: int| a <= k < b ==> is_alphabetic(#[trigger] s[k])
}

/// `s` holds a token of at least `min` characters that is purely alphabetic.
pub open spec fn has_real_word(s: Seq<char>, min: nat) -> bool {
    exists|a: int, b: int| is_real_word(s, a, b, min)
}

/// `s` holds a token of at least `min` characters, all of them letters of a
/// common alphabet (such as "Hello", "Größe", "Привет" or "数据库").
pub open spec fn has_letter_word(s: Seq<char>, min: nat) -> bool {
    exists|a: int, b: int|
        is_token(s, a, b) && b - a >= min && forall|k: int| a <= k < b ==> is_common_letter(#[trigger] s[k])
}

/// `s` holds a token of at least `min` characters none of which is an ASCII
/// digit, punctuation mark or symbol.
pub open spec fn has_word_without_ascii_symbols(s: Seq<char>, min: nat) -> bool {
    exists|a: int, b: int|
        is_token(s, a, b) && b - a >= min && forall|k: int| a <= k < b ==> !is_ascii_non_letter(#[trigger] s[k])
}

/// If the first `i` characters are whitespace and the next one (if any) is
/// not, `s` has exactly `i` leading whitespace characters.
pub proof fn lemma_leading_ws(s: Seq<char>, i: int)
    requires
        0 <= i <= s.len(),
        forall|k: int| 0 <= k < i ==> is_white_space(#[trigger] s[k]),
        i == s.len() || !is_white_space(s[i]),
    ensures
        leading_ws(s) == i,
    decreases i,
{
    if i > 0 {
        let t = s.drop_first();
        assert forall|k: int| 0 <= k < i - 1 implies is_white_space(#[trigger] t[k]) by {
            assert(t[k] == s[k + 1]);
        }
        if i - 1 < t.len() {
            assert(t[i - 1] == s[i]);
        }
        lemma_leading_ws(t, i - 1);
    }
}

/// If the characters from position `j` on are whitespace and the one before
/// (if any) is not, `s` has exactly `s.len() - j` trailing whitespace characters.
pub proof fn lemma_trailing_ws(s: Seq<char>, j: int)
    requires
        0 <= j <= s.len(),
        forall|k: int| j <= k < s.len() ==> is_white_space(#[trigger] s[k]),
        j == 0 || !is_white_space(s[j - 1]),
    ensures
        trailing_ws(s) == s.len() - j,
    decreases s.len() - j,
{
    if j < s.len() {
        let t = s.drop_last();
        assert(is_white_space(s[s.len() - 1]));
        assert forall|k: int| j <= k < t.len() implies is_white_space(#[trigger] t[k]) by {
            assert(t[k] == s[k]);
        }
        if j > 0 {
            assert(t[j - 1] == s[j - 1]);
        }
        lemma_trailing_ws(t, j);
    }
}

/// What `leading_ws` counts: whitespace characters, stopping at the first other one.
pub proof fn lemma_leading_ws_props(s: Seq<char>)
    ensures
        leading_ws(s) <= s.len(),
        forall|k: int| 0 <= k < leading_ws(s) ==> is_white_space(#[trigger] s[k]),
        leading_ws(s) < s.len() ==> !is_white_space(s[leading_ws(s) as int]),
    decreases s.len(),
{
    if s.len() > 0 && is_white_space(s[0]) {
        let t = s.drop_first();
        lemma_leading_ws_props(t);
        assert forall|k: int| 0 <= k < leading_ws(s) implies is_white_space(#[trigger] s[k]) by {
            if k > 0 {
                assert(s[k] == t[k - 1]);
            }
        }
        if leading_ws(s) < s.len() {
            assert(s[leading_ws(s) as int] == t[leading_ws(t) as int]);
        }
    }
}

/// What `trailing_ws` counts: whitespace characters from the end, stopping at the last other one.
pub proof fn lemma_trailing_ws_props(s: Seq<char>)
    ensures
        trailing_ws(s) <= s.len(),
        forall|k: int| s.len() - trailing_ws(s) <= k < s.len() ==> is_white_space(#[trigger] s[k]),
        trailing_ws(s) < s.len() ==> !is_white_space(s[s.len() - trailing_ws(s) - 1]),
    decreases s.len(),
{
    if s.len() > 0 && is_white_space(s.last()) {
        let t = s.drop_last();
        lemma_trailing_ws_props(t);
        assert forall|k: int| s.len() - trailing_ws(s) <= k < s.len() implies is_white_space(#[trigger] s[k]) by {
            if k < s.len() - 1 {
                assert(s[k] == t[k]);
            }
        }
        if trailing_ws(s) < s.len() {
            assert(s[s.len() - trailing_ws(s) - 1] == t[t.len() - trailing_ws(t) - 1]);
        }
    }
}

/// Trimming twice trims no more than trimming once.
pub proof fn lemma_trim_idempotent(s: Seq<char>)
    ensures
        trim_ws(trim_ws(s)) == trim_ws(s),
{
    let l = leading_ws(s);
    lemma_leading_ws_props(s);
    let u = s.skip(l as int);
    lemma_trailing_ws_props(u);
    let t = trim_ws(s);
    assert(t == u.take(u.len() - trailing_ws(u)));
    if t.len() > 0 {
        assert(t[0] == s[l as int]);
        lemma_leading_ws(t, 0);
        assert(t[t.len() - 1] == u[u.len() - trailing_ws(u) - 1]);
        lemma_trailing_ws(t, t.len() as int);
        assert(t.skip(0) =~= t);
        assert(t.take(t.len() as int) =~= t);
    } else {
        assert(trim_ws(t) =~= t);
    }
}

/// Trimming is idempotent, for every character sequence.
pub proof fn lemma_trim_idempotent_all()
    ensures
        forall|s: Seq<char>| #[trigger] trim_ws(trim_ws(s)) == trim_ws(s),
{
    assert forall|s: Seq<char>| #[trigger] trim_ws(trim_ws(s)) == trim_ws(s) by {
        lemma_trim_idempotent(s);
    }
}

/// A text holding a real word is not blank: the word's characters are not whitespace.
pub proof fn lemma_real_word_not_blank(s: Seq<char>, min: nat)
    requires
        has_real_word(s, min),
    ensures
        !all_white_space(s),
        trim_ws(s).len() > 0,
{
    let (a, b) = choose|a: int, b: int| is_real_word(s, a, b, min);
    assert(!is_white_space(s[a]));
    lemma_trim_empty_iff_blank(s);
}

/// Asking for shorter words finds at least the words found before.
pub proof fn lemma_real_word_shorter_min(s: Seq<char>, min: nat, smaller: nat)
    requires
        has_real_word(s, min),
        smaller <= min,
    ensures
        has_real_word(s, smaller),
{
    let (a, b) = choose|a: int, b: int| is_real_word(s, a, b, min);
    assert(is_real_word(s, a, b, smaller));
}

/// Trimming leaves nothing exactly when the text is blank.
pub proof fn lemma_trim_empty_iff_blank(s: Seq<char>)
    ensures
        trim_ws(s).len() == 0 <==> all_white_space(s),
{
    let l = leading_ws(s);
    lemma_leading_ws_props(s);
    let u = s.skip(l as int);
    lemma_trailing_ws_props(u);
    if all_white_space(s) {
        if l < s.len() {
            assert(is_white_space(s[l as int]));
        }
        assert(u.len() == 0);
    } else {
        let k = choose|k: int| 0 <= k < s.len() && !is_white_space(s[k]);
        assert(l <= k);
        if l == s.len() {
            assert(is_white_space(s[k]));
        }
        assert(u[0] == s[l as int]);
        if trailing_ws(u) == u.len() {
            assert(is_white_space(u[0]));
        }
    }
}

/// The bounds `(i, j)` of `trim_ws(v@)` inside `v`.
pub fn trim_bounds(v: &Vec<char>) -> (r: (usize, usize))
    ensures
        r.0 <= r.1 <= v@.len(),
        trim_ws(v@) == v@.subrange(r.0 as int, r.1 as int),
        r.0 == r.1 <==> all_white_space(v@),
{
    let n = v.len();
    let mut i: usize = 0;
    while i < n && char_is_whitespace(v[i])
        invariant
            i <= n == v@.len(),
            forall|k: int| 0 <= k < i ==> is_white_space(#[trigger] v@[k]),
        decreases n - i,
    {
        i = i + 1;
    }
    proof {
        lemma_leading_ws(v@, i as int);
    }
    let mut j: usize = n;
    while j > i && char_is_whitespace(v[j - 1])
        invariant
            i <= j <= n == v@.len(),
            forall|k: int| j <= k < n ==> is_white_space(#[trigger] v@[k]),
        decreases j,
    {
        j = j - 1;
    }
    proof {
        let s = v@;
        let t = s.skip(i as int);
        assert forall|k: int| j - i <= k < t.len() implies is_white_space(#[trigger] t[k]) by {
            assert(t[k] == s[k + i]);
        }
        if j > i {
            assert(t[j - i - 1] == s[j - 1]);
        }
        lemma_trailing_ws(t, j - i);
        assert(t.take(j - i) =~= s.subrange(i as int, j as int));
        if i == j {
            assert forall|k: int| 0 <= k < s.len() implies is_white_space(#[trigger] s[k]) by {
                if k >= i {
                    assert(t[k - i] == s[k]);
                }
            }
        } else {
            assert(!is_white_space(s[i as int]));
        }
    }
    (i, j)
}

/// Returns `true` if `text` contains at least one whitespace-delimited token
/// that is purely alphabetic (Unicode-aware) and at least `min_word_length`
/// characters long.
///
/// Distinguishes pages with a genuine native text layer from pages whose
/// layer holds only garbage (corrupt encoding, symbol-only content).
pub fn contains_real_words(text: &str, min_word_length: usize) -> (r: bool)
    ensures
        r == has_real_word(text@, min_word_length as nat),
        has_letter_word(text@, min_word_length as nat) ==> r,
        r ==> has_word_without_ascii_symbols(text@, min_word_length as nat),
{
    let v = chars_of(text);
    let ghost s = v@;
    let n = v.len();
    let mut start: usize = 0;
    let mut alpha = true;
    let mut i: usize = 0;
    while i < n
        invariant
            s == v@,
            s == text@,
            n == s.len(),
            start <= i <= n,
            start == 0 || is_white_space(s[start - 1]),
            forall|k: int| start <= k < i ==> !is_white_space(#[trigger] s[k]),
            alpha == (forall|k: int| start <= k < i ==> is_alphabetic(#[trigger] s[k])),
            alpha ==> forall|k: int| start <= k < i ==> !is_ascii_non_letter(#[trigger] s[k]),
            forall|k: int| 0 <= k < i ==> is_common_letter(#[trigger] s[k]) ==> is_alphabetic(s[k]),
            forall|a: int, b: int|
                b < i ==> !#[trigger] is_real_word(s, a, b, min_word_length as nat),
        decreases n - i,
    {
        let c = v[i];
        if char_is_whitespace(c) {
            proof {
                lemma_white_space_is_no_letter(c);
            }
            if i > start && alpha && i - start >= min_word_length {
                assert(is_real_word(s, start as int, i as int, min_word_length as nat));
                assert(is_token(s, start as int, i as int));
                return true;
            }
            assert forall|a: int, b: int|
                b < i + 1 implies !#[trigger] is_real_word(s, a, b, min_word_length as nat) by {
                if b == i && is_real_word(s, a, b, min_word_length as nat) {
                    if a < start {
                        assert(!is_white_space(s[start - 1]));
                    }
                    if a > start {
                        assert(!is_white_space(s[a - 1]));
                    }
                }
            }
            start = i + 1;
            alpha = true;
        } else {
            let letter = char_is_alphabetic(c);
            alpha = alpha && letter;
        }
        i = i + 1;
    }
    if n > start && alpha && n - start >= min_word_length {
        assert(is_real_word(s, start as int, n as int, min_word_length as nat));
        assert(is_token(s, start as int, n as int));
        return true;
    }
    assert forall|a: int, b: int| !#[trigger] is_real_word(s, a, b, min_word_length as nat) by {
        if b == n && is_real_word(s, a, b, min_word_length as nat) {
            if a < start {
                assert(!is_white_space(s[start - 1]));
            }
            if a > start {
                assert(!is_white_space(s[a - 1]));
            }
        }
    }
    assert(!has_letter_word(s, min_word_length as nat)) by {
        if has_letter_word(s, min_word_length as nat) {
            let (a, b) = choose|a: int, b: int|
                is_token(s, a, b) && b - a >= min_word_length && forall|k: int|
                    a <= k < b ==> is_common_letter(#[trigger] s[k]);
            assert(is_real_word(s, a, b, min_word_length as nat));
        }
    }
    false
}

} // verus!
