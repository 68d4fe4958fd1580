//! Truncation of a rendered decimal at the decimal point, digit by digit,
//! with no rounding.
use crate::model::dot_index;
use vstd::prelude::*;

verus! {

/// The digits after the first `.`, or `"0"` where there is no `.`.
pub open spec fn fraction_or_zero(s: Seq<char>) -> Seq<char> {
    if dot_index(s) < s.len() {
        s.skip(dot_index(s) + 1)
    } else {
        seq!['0']
    }
}

/// Everything before the first `.`, then `.`, then at most `digits` characters
/// of what followed it (all of them where `digits` is negative).
pub open spec fn truncated_text(s: Seq<char>, digits: int) -> Seq<char> {
    let right = fraction_or_zero(s);
    let kept = if 0 <= digits < right.len() {
        right.take(digits)
    } else {
        right
    };
    s.take(dot_index(s)) + seq!['.'] + kept
}

/// No `.` after the first one.
pub open spec fn at_most_one_dot(s: Seq<char>) -> bool {
    forall|j: int| dot_index(s) < j < s.len() ==> s[j] != '.'
}

/// A text without `.` unchanged, else the text truncated as `truncated_text` does.
pub open spec fn rescaled_text(s: Seq<char>, digits: int) -> Seq<char> {
    if dot_index(s) == s.len() {
        s
    } else {
        truncated_text(s, digits)
    }
}

pub proof fn lemma_dot_index(s: Seq<char>, p: int)
    requires
        0 <= p <= s.len(),
        forall|j: int| 0 <= j < p ==> s[j] != '.',
        p == s.len() || s[p] == '.',
    ensures
        dot_index(s) == p,
    decreases p,
{
    if p > 0 {
        assert(s[0] != '.');
        let t = s.skip(1);
        assert forall|j: int| 0 <= j < p - 1 implies t[j] != '.' by {
            assert(t[j] == s[j + 1]);
        }
        if p < s.len() {
            assert(t[p - 1] == s[p]);
        }
        lemma_dot_index(t, p - 1);
    }
}

proof fn lemma_dot_index_bound(s: Seq<char>)
    ensures
        0 <= dot_index(s) <= s.len(),
        dot_index(s) < s.len() ==> s[dot_index(s)] == '.',
    decreases s.len(),
{
    if s.len() > 0 && s[0] != '.' {
        lemma_dot_index_bound(s.skip(1));
    }
}

/// The position of the first `.` in `s`, or its length where there is none.
pub fn find_dot(s: &str) -> (r: usize)
    ensures
        r as int == dot_index(s@),
{
    let n = s.unicode_len();
    let mut i: usize = 0;
    while i < n && s.get_char(i) != '.'
        invariant
            i <= n,
            n == s@.len(),
            forall|j: int| 0 <= j < i ==> s@[j] != '.',
        decreases n - i,
    {
        i = i + 1;
    }
    proof {
        lemma_dot_index(s@, i as int);
    }
    i
}

/// Whether `s` holds no `.` after its first one.
pub fn has_at_most_one_dot(s: &str) -> (r: bool)
    ensures
        r == at_most_one_dot(s@),
{
    let n = s.unicode_len();
    let p = find_dot(s);
    proof {
        lemma_dot_index_bound(s@);
    }
    if p == n {
        return true;
    }
    let mut i: usize = p + 1;
    while i < n
        invariant
            p < i <= n,
            n == s@.len(),
            p as int == dot_index(s@),
            forall|j: int| p < j < i ==> s@[j] != '.',
        decreases n - i,
    {
        if s.get_char(i) == '.' {
            return false;
        }
        i = i + 1;
    }
    true
}

/// Cuts the part after the decimal point of `text` to at most `digits`
/// characters; a text without a point gets `.0`.
pub fn truncate_fraction(text: &str, digits: i64) -> (r: String)
    ensures
        r@ == truncated_text(text@, digits as int),
{
    let n = text.unicode_len();
    let p = find_dot(text);
    proof {
        lemma_dot_index_bound(text@);
        reveal_strlit("0");
        reveal_strlit(".");
    }
    let left = text.substring_char(0, p);
    let right: &str = if p < n {
        text.substring_char(p + 1, n)
    } else {
        "0"
    };
    let rlen = right.unicode_len();
    let kept: &str = if digits >= 0 && (digits as u64) < (rlen as u64) {
        right.substring_char(0, digits as usize)
    } else {
        right
    };
    let r = String::from_str(left).concat(".").concat(kept);
    proof {
        assert(right@ == fraction_or_zero(text@));
        assert(r@ =~= truncated_text(text@, digits as int));
    }
    r
}

/// `truncate_fraction`, except that a text without a point is kept as it is.
pub fn rescale_text(text: &str, digits: i64) -> (r: String)
    ensures
        r@ == rescaled_text(text@, digits as int),
{
    if find_dot(text) == text.unicode_len() {
        String::from_str(text)
    } else {
        truncate_fraction(text, digits)
    }
}

/// Some `e` or `E` in `s`: the exponent notation of the engine's text.
pub open spec fn has_exponent(s: Seq<char>) -> bool {
    exists|i: int| 0 <= i < s.len() && (s[i] == 'e' || s[i] == 'E')
}

/// Whether `s` holds an `e` or `E`.
pub fn contains_exponent(s: &str) -> (r: bool)
    ensures
        r == has_exponent(s@),
{
    let n = s.unicode_len();
    let mut i: usize = 0;
    while i < n
        invariant
            i <= n,
            n == s@.len(),
            forall|j: int| 0 <= j < i ==> s@[j] != 'e' && s@[j] != 'E',
        decreases n - i,
    {
        let c = s.get_char(i);
        if c == 'e' || c == 'E' {
            return true;
        }
        i = i + 1;
    }
    false
}

} // verus!
