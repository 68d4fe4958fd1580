use vstd::prelude::*;

verus! {

/// The mathematical content of a decimal: the number `unscaled * 10^(-scale)`.
pub struct DecimalModel {
    pub unscaled: int,
    pub scale: int,
}

pub open spec fn pow10(n: nat) -> int
    decreases n,
{
    if n == 0 {
        1
    } else {
        10 * pow10((n - 1) as nat)
    }
}

pub open spec fn abs(a: int) -> int {
    if a < 0 {
        -a
    } else {
        a
    }
}

/// Integer division rounding toward zero, as machine and big integers do it.
pub open spec fn trunc_div(a: int, b: int) -> int {
    if (a >= 0) == (b > 0) || a == 0 {
        abs(a) / abs(b)
    } else {
        -(abs(a) / abs(b))
    }
}

/// Remainder that goes with `trunc_div`: it takes the sign of `a`.
pub open spec fn trunc_rem(a: int, b: int) -> int {
    a - b * trunc_div(a, b)
}

pub open spec fn max_int(a: int, b: int) -> int {
    if a >= b {
        a
    } else {
        b
    }
}

pub open spec fn common_scale(a: DecimalModel, b: DecimalModel) -> int {
    max_int(a.scale, b.scale)
}

/// The unscaled integer that `d` has when written with `t >= d.scale` fractional digits.
pub open spec fn num_at(d: DecimalModel, t: int) -> int {
    d.unscaled * pow10((t - d.scale) as nat)
}

pub open spec fn same_value(a: DecimalModel, b: DecimalModel) -> bool {
    num_at(a, common_scale(a, b)) == num_at(b, common_scale(a, b))
}

pub open spec fn compare_values(a: DecimalModel, b: DecimalModel) -> core::cmp::Ordering {
    let x = num_at(a, common_scale(a, b));
    let y = num_at(b, common_scale(a, b));
    if x < y {
        core::cmp::Ordering::Less
    } else if x == y {
        core::cmp::Ordering::Equal
    } else {
        core::cmp::Ordering::Greater
    }
}

pub open spec fn sum_model(a: DecimalModel, b: DecimalModel) -> DecimalModel {
    let t = common_scale(a, b);
    DecimalModel { unscaled: num_at(a, t) + num_at(b, t), scale: t }
}

pub open spec fn difference_model(a: DecimalModel, b: DecimalModel) -> DecimalModel {
    let t = common_scale(a, b);
    DecimalModel { unscaled: num_at(a, t) - num_at(b, t), scale: t }
}

pub open spec fn product_model(a: DecimalModel, b: DecimalModel) -> DecimalModel {
    DecimalModel { unscaled: a.unscaled * b.unscaled, scale: a.scale + b.scale }
}

pub open spec fn negation_model(a: DecimalModel) -> DecimalModel {
    DecimalModel { unscaled: -a.unscaled, scale: a.scale }
}

/// The remainder of truncating division, at the larger of the two scales.
pub open spec fn remainder_model(a: DecimalModel, b: DecimalModel) -> DecimalModel {
    let t = common_scale(a, b);
    DecimalModel { unscaled: trunc_rem(num_at(a, t), num_at(b, t)), scale: t }
}

pub open spec fn int_model(n: int) -> DecimalModel {
    DecimalModel { unscaled: n, scale: 0 }
}

pub open spec fn pair_model(p: (int, int)) -> DecimalModel {
    DecimalModel { unscaled: p.0, scale: p.1 }
}

/// `d` re-expressed with `scale` fractional digits; digits beyond it are cut off
/// toward zero.
pub open spec fn rescaled_model(d: DecimalModel, scale: int) -> DecimalModel {
    if d.scale > scale {
        DecimalModel {
            unscaled: trunc_div(d.unscaled, pow10((d.scale - scale) as nat)),
            scale,
        }
    } else {
        DecimalModel { unscaled: d.unscaled * pow10((scale - d.scale) as nat), scale }
    }
}

/// The canonical form: no trailing zero in the unscaled integer, zero as `0`.
pub open spec fn is_normalized_form_of(r: DecimalModel, d: DecimalModel) -> bool {
    &&& same_value(r, d)
    &&& d.unscaled == 0 ==> r == int_model(0)
    &&& d.unscaled != 0 ==> r.unscaled % 10 != 0
}

pub open spec fn is_digit(c: char) -> bool {
    '0' <= c && c <= '9'
}

pub open spec fn all_digits(s: Seq<char>) -> bool {
    forall|i: int| 0 <= i < s.len() ==> is_digit(#[trigger] s[i])
}

pub open spec fn digits_value(s: Seq<char>) -> int
    decreases s.len(),
{
    if s.len() == 0 {
        0
    } else {
        digits_value(s.drop_last()) * 10 + ((s.last() as u32) - ('0' as u32))
    }
}

/// Index of the first `.` in `s`, or `s.len()` where there is none.
pub open spec fn dot_index(s: Seq<char>) -> int
    decreases s.len(),
{
    if s.len() == 0 {
        0
    } else if s[0] == '.' {
        0
    } else {
        1 + dot_index(s.skip(1))
    }
}

pub open spec fn has_minus(s: Seq<char>) -> bool {
    s.len() > 0 && s[0] == '-'
}

pub open spec fn numeral_body(s: Seq<char>) -> Seq<char> {
    if has_minus(s) {
        s.skip(1)
    } else {
        s
    }
}

pub open spec fn integer_digits(s: Seq<char>) -> Seq<char> {
    numeral_body(s).take(dot_index(numeral_body(s)))
}

pub open spec fn fraction_digits(s: Seq<char>) -> Seq<char> {
    let b = numeral_body(s);
    if dot_index(b) < b.len() {
        b.skip(dot_index(b) + 1)
    } else {
        Seq::empty()
    }
}

/// An optional `-`, one or more digits, then optionally `.` and zero or more digits.
pub open spec fn is_plain_numeral(s: Seq<char>) -> bool {
    &&& integer_digits(s).len() > 0
    &&& all_digits(integer_digits(s))
    &&& all_digits(fraction_digits(s))
}

/// The value that a plain numeral denotes, with one unit of scale per fraction digit.
pub open spec fn numeral_model(s: Seq<char>) -> DecimalModel {
    let magnitude = digits_value(integer_digits(s) + fraction_digits(s));
    DecimalModel {
        unscaled: if has_minus(s) {
            -magnitude
        } else {
            magnitude
        },
        scale: fraction_digits(s).len() as int,
    }
}

/// An optional `-` followed by one or more digits.
pub open spec fn is_plain_integer(s: Seq<char>) -> bool {
    &&& numeral_body(s).len() > 0
    &&& all_digits(numeral_body(s))
}

pub open spec fn integer_value(s: Seq<char>) -> int {
    if has_minus(s) {
        -digits_value(numeral_body(s))
    } else {
        digits_value(numeral_body(s))
    }
}

/// The number of decimal digits of `n` (one for zero).
pub open spec fn digit_count(n: nat) -> nat
    decreases n,
{
    if n < 10 {
        1
    } else {
        1 + digit_count(n / 10)
    }
}

pub open spec fn magnitude_digits(d: DecimalModel) -> int {
    digit_count(abs(d.unscaled) as nat) as int
}

/// Dropping every trailing zero of `d` keeps its scale within `i64`.
pub open spec fn normalizable(d: DecimalModel) -> bool {
    d.scale - magnitude_digits(d) >= i64::MIN
}

/// Rounding `d` to `digits` fractional digits keeps the engine's scale
/// arithmetic within `i64`.
pub open spec fn roundable(d: DecimalModel, digits: int) -> bool {
    &&& digits > i64::MIN
    &&& digits - d.scale <= i64::MAX
    &&& magnitude_digits(d) - d.scale <= i64::MAX
}

/// The product's scale, and that of either factor made canonical, fit an `i64`.
pub open spec fn multipliable(a: DecimalModel, b: DecimalModel) -> bool {
    &&& i64::MIN <= a.scale + b.scale <= i64::MAX
    &&& normalizable(a)
    &&& normalizable(b)
}

/// The most fractional digits that the engine adds while dividing, beyond
/// the digits of the divisor: its default precision.
pub const DIVISION_PRECISION: i64 = 100;

/// Every scale that the engine reaches while computing `a / b` fits an `i64`.
pub open spec fn quotient_fits(a: DecimalModel, b: DecimalModel) -> bool {
    &&& a.scale - b.scale >= i64::MIN
    &&& a.scale - b.scale + magnitude_digits(b) + DIVISION_PRECISION <= i64::MAX
}

/// A sign (`-` or `+`) at the front of `s` left out.
pub open spec fn sign_stripped(s: Seq<char>) -> Seq<char> {
    if s.len() > 0 && (s[0] == '-' || s[0] == '+') {
        s.skip(1)
    } else {
        s
    }
}

/// What `BigInt` reads in base 10: an optional sign, then digits and `_`,
/// starting with a digit.
pub open spec fn is_integer_text(s: Seq<char>) -> bool {
    let b = sign_stripped(s);
    &&& b.len() > 0
    &&& b[0] != '_'
    &&& forall|i: int| 0 <= i < b.len() ==> is_digit(#[trigger] b[i]) || b[i] == '_'
}

} // verus!
