//! The calls into the `bigdecimal` crate, with what this library relies on
//! of each.
use crate::model::{
    is_integer_text, multipliable, normalizable, quotient_fits, roundable,
    compare_values, difference_model, int_model, integer_value, is_normalized_form_of,
    is_plain_integer, is_plain_numeral, negation_model, numeral_model, pair_model,
    product_model, remainder_model, rescaled_model, same_value, sum_model, trunc_div, DecimalModel,
};
use bigdecimal::num_bigint::BigInt;
use bigdecimal::num_bigint::ParseBigIntError;
use bigdecimal::BigDecimal as Inner;
use bigdecimal::ParseBigDecimalError;
use bigdecimal::Signed;
use bigdecimal::ToPrimitive;
use bigdecimal::Zero;
use bigdecimal::One;
use std::str::FromStr;
use vstd::prelude::*;

verus! {

#[verifier::external_type_specification]
#[verifier::external_body]
pub struct ExInner(Inner);

#[verifier::external_type_specification]
#[verifier::external_body]
pub struct ExBigInt(bigdecimal::num_bigint::BigInt);

#[verifier::external_type_specification]
#[verifier::external_body]
pub struct ExParseBigDecimalError(bigdecimal::ParseBigDecimalError);

#[verifier::external_type_specification]
#[verifier::external_body]
pub struct ExParseBigIntError(bigdecimal::num_bigint::ParseBigIntError);

#[verifier::external_type_specification]
#[verifier::external_body]
pub struct ExAnyhowError(anyhow::Error);

/// What a `bigdecimal::BigDecimal` holds: its unscaled integer and its scale.
pub uninterp spec fn decimal_parts(d: Inner) -> (int, int);

/// What a `BigInt` holds.
pub uninterp spec fn bigint_value(b: BigInt) -> int;

/// The text that `Display` gives for the decimal with these parts.
pub uninterp spec fn decimal_text(unscaled: int, scale: int) -> Seq<char>;

/// The parts of the decimal that `FromStr` reads from `s`, if it reads one.
pub uninterp spec fn parsed_decimal(s: Seq<char>) -> Option<(int, int)>;

/// The parts of the quotient that `Div` computes at the engine's precision.
pub uninterp spec fn quotient_parts(a_unscaled: int, a_scale: int, b_unscaled: int, b_scale: int) -> (int, int);

/// The parts that `round` gives under the engine's default rounding mode.
pub uninterp spec fn rounded_parts(unscaled: int, scale: int, digits: int) -> (int, int);

pub open spec fn inner_model(d: Inner) -> DecimalModel {
    pair_model(decimal_parts(d))
}

/// Relies on `BigDecimal::from_str`: a plain numeral is read digit for digit,
/// with one unit of scale per digit after the point.
#[verifier::external_body]
pub(crate) fn parse_inner(s: &str) -> (r: Result<Inner, ParseBigDecimalError>)
    ensures
        r is Ok <==> parsed_decimal(s@) is Some,
        s@.len() == 0 ==> r is Err,
        r is Ok ==> pair_model(parsed_decimal(s@).unwrap()) == inner_model(r->Ok_0),
        is_plain_numeral(s@) ==> r is Ok && inner_model(r->Ok_0) == numeral_model(s@),
{
    Inner::from_str(s)
}

/// Relies on `BigDecimal`'s `Display`: the text depends on the parts alone,
/// and `FromStr` reads it back (plain or exponent form) as the same value.
#[verifier::external_body]
pub(crate) fn text_of_inner(d: &Inner) -> (r: String)
    ensures
        r@ == decimal_text(decimal_parts(*d).0, decimal_parts(*d).1),
        parsed_decimal(r@) is Some,
        same_value(pair_model(parsed_decimal(r@).unwrap()), inner_model(*d)),
{
    d.to_string()
}

/// Relies on `BigDecimal::clone`: the copy has the same parts.
#[verifier::external_body]
pub(crate) fn clone_inner(d: &Inner) -> (r: Inner)
    ensures
        decimal_parts(r) == decimal_parts(*d),
{
    d.clone()
}

/// Relies on `BigDecimal::zero`: unscaled 0 at scale 0.
#[verifier::external_body]
pub(crate) fn zero_inner() -> (r: Inner)
    ensures
        inner_model(r) == int_model(0),
{
    Inner::zero()
}

/// Relies on `BigDecimal::one`: unscaled 1 at scale 0.
#[verifier::external_body]
pub(crate) fn one_inner() -> (r: Inner)
    ensures
        inner_model(r) == int_model(1),
{
    Inner::one()
}

/// Relies on `From<i64> for BigDecimal`: the integer at scale 0.
#[verifier::external_body]
pub(crate) fn inner_from_i64(n: i64) -> (r: Inner)
    ensures
        inner_model(r) == int_model(n as int),
{
    Inner::from(n)
}

/// Relies on `From<u64> for BigDecimal`: the integer at scale 0.
#[verifier::external_body]
pub(crate) fn inner_from_u64(n: u64) -> (r: Inner)
    ensures
        inner_model(r) == int_model(n as int),
{
    Inner::from(n)
}

/// Relies on `BigDecimal`'s `Add`: the exact sum.
#[verifier::external_body]
pub(crate) fn add_inner(a: &Inner, b: &Inner) -> (r: Inner)
    ensures
        same_value(inner_model(r), sum_model(inner_model(*a), inner_model(*b))),
{
    a + b
}

/// Relies on `BigDecimal`'s `Sub`: the exact difference.
#[verifier::external_body]
pub(crate) fn sub_inner(a: &Inner, b: &Inner) -> (r: Inner)
    ensures
        same_value(inner_model(r), difference_model(inner_model(*a), inner_model(*b))),
{
    a - b
}

/// Relies on `BigDecimal`'s `Mul`: the exact product. It adds the scales,
/// and where one factor is one it normalizes the other.
#[verifier::external_body]
pub(crate) fn mul_inner(a: &Inner, b: &Inner) -> (r: Inner)
    requires
        multipliable(inner_model(*a), inner_model(*b)),
    ensures
        same_value(inner_model(r), product_model(inner_model(*a), inner_model(*b))),
{
    a * b
}

/// Relies on `BigDecimal`'s `Div`, which panics on a zero divisor. Its scale
/// starts at the difference of the scales and grows by at most the divisor's
/// digits plus the default precision of 100 digits.
#[verifier::external_body]
pub(crate) fn div_inner(a: &Inner, b: &Inner) -> (r: Inner)
    requires
        decimal_parts(*b).0 != 0,
        quotient_fits(inner_model(*a), inner_model(*b)),
    ensures
        decimal_parts(r) == quotient_parts(
            decimal_parts(*a).0,
            decimal_parts(*a).1,
            decimal_parts(*b).0,
            decimal_parts(*b).1,
        ),
{
    a / b
}

/// Relies on `BigDecimal`'s `Rem`: both sides at the larger scale, then the
/// truncating remainder of `BigInt`, which panics on a zero divisor.
#[verifier::external_body]
pub(crate) fn rem_inner(a: Inner, b: Inner) -> (r: Inner)
    requires
        decimal_parts(b).0 != 0,
    ensures
        inner_model(r) == remainder_model(inner_model(a), inner_model(b)),
{
    a % b
}

/// Relies on `BigDecimal`'s `Neg`: the sign of the unscaled integer flips.
#[verifier::external_body]
pub(crate) fn neg_inner(a: &Inner) -> (r: Inner)
    ensures
        inner_model(r) == negation_model(inner_model(*a)),
{
    -a
}

/// Relies on `BigDecimal::is_zero`: the unscaled integer is zero.
#[verifier::external_body]
pub(crate) fn is_zero_inner(a: &Inner) -> (r: bool)
    ensures
        r == (decimal_parts(*a).0 == 0),
{
    a.is_zero()
}

/// Relies on `Signed::is_positive`: the sign of the unscaled integer is plus.
#[verifier::external_body]
pub(crate) fn is_positive_inner(a: &Inner) -> (r: bool)
    ensures
        r == (decimal_parts(*a).0 > 0),
{
    a.is_positive()
}

/// Relies on `Signed::is_negative`: the sign of the unscaled integer is minus.
#[verifier::external_body]
pub(crate) fn is_negative_inner(a: &Inner) -> (r: bool)
    ensures
        r == (decimal_parts(*a).0 < 0),
{
    a.is_negative()
}

/// Relies on `BigDecimal`'s `PartialEq`: equal numeric values.
#[verifier::external_body]
pub(crate) fn eq_inner(a: &Inner, b: &Inner) -> (r: bool)
    ensures
        r == same_value(inner_model(*a), inner_model(*b)),
{
    a == b
}

/// Relies on `BigDecimal`'s `Ord`: numeric order.
#[verifier::external_body]
pub(crate) fn cmp_inner(a: &Inner, b: &Inner) -> (r: core::cmp::Ordering)
    ensures
        r == compare_values(inner_model(*a), inner_model(*b)),
{
    a.cmp(b)
}

/// Relies on `BigDecimal::normalized`: trailing zeros of the unscaled
/// integer dropped, zero as `0`; the scale drops by their count.
#[verifier::external_body]
pub(crate) fn normalized_inner(a: &Inner) -> (r: Inner)
    requires
        normalizable(inner_model(*a)),
    ensures
        is_normalized_form_of(inner_model(r), inner_model(*a)),
{
    a.normalized()
}

/// Relies on `BigDecimal::round` (`with_scale_round`): the result has
/// `digits` as its scale, and the same value where no digit is dropped.
#[verifier::external_body]
pub(crate) fn round_inner(a: &Inner, digits: i64) -> (r: Inner)
    requires
        roundable(inner_model(*a), digits as int),
    ensures
        digits >= decimal_parts(*a).1 ==> same_value(inner_model(r), inner_model(*a)),
        decimal_parts(r) == rounded_parts(decimal_parts(*a).0, decimal_parts(*a).1, digits as int),
        decimal_parts(r).1 == digits,
{
    a.round(digits)
}

/// Relies on `BigDecimal::as_bigint_and_exponent`: a copy of both parts.
#[verifier::external_body]
pub(crate) fn parts_of_inner(a: &Inner) -> (r: (BigInt, i64))
    ensures
        bigint_value(r.0) == decimal_parts(*a).0,
        r.1 as int == decimal_parts(*a).1,
{
    a.as_bigint_and_exponent()
}

/// Relies on `BigDecimal::new`: the decimal with exactly these parts.
#[verifier::external_body]
pub(crate) fn inner_from_parts(digits: BigInt, scale: i64) -> (r: Inner)
    ensures
        decimal_parts(r) == (bigint_value(digits), scale as int),
{
    Inner::new(digits, scale)
}

/// Relies on `BigInt`'s `Div<i64>`: truncating division; panics on zero.
#[verifier::external_body]
pub(crate) fn bigint_div_i64(a: BigInt, b: i64) -> (r: BigInt)
    requires
        b != 0,
    ensures
        bigint_value(r) == trunc_div(bigint_value(a), b as int),
{
    a / b
}

/// Relies on `BigInt`'s `Mul<i64>`: the exact product.
#[verifier::external_body]
pub(crate) fn bigint_mul_i64(a: BigInt, b: i64) -> (r: BigInt)
    ensures
        bigint_value(r) == bigint_value(a) * b,
{
    a * b
}

/// Relies on `BigInt::from_str`: it reads an optional sign, then digits and
/// `_` starting with a digit; an optional `-` and digits are read as that
/// integer.
#[verifier::external_body]
pub(crate) fn parse_bigint(s: &str) -> (r: Result<BigInt, ParseBigIntError>)
    ensures
        r is Ok <==> is_integer_text(s@),
        is_plain_integer(s@) ==> r is Ok && bigint_value(r->Ok_0) == integer_value(s@),
{
    BigInt::from_str(s)
}

/// The integer part of `d`: digits after the point cut off toward zero.
pub open spec fn integer_part(d: DecimalModel) -> int {
    rescaled_model(d, 0).unscaled
}

/// Relies on `ToPrimitive::to_i64` of `BigDecimal`: the integer part, where
/// it fits.
#[verifier::external_body]
pub(crate) fn to_i64_inner(a: &Inner) -> (r: Option<i64>)
    ensures
        r is Some <==> (i64::MIN <= integer_part(inner_model(*a)) <= i64::MAX),
        r is Some ==> r->Some_0 as int == integer_part(inner_model(*a)),
{
    a.to_i64()
}

/// Relies on `ToPrimitive::to_u64` of `BigDecimal`: the integer part of a
/// value that is not negative, where it fits.
#[verifier::external_body]
pub(crate) fn to_u64_inner(a: &Inner) -> (r: Option<u64>)
    ensures
        r is Some <==> (decimal_parts(*a).0 >= 0 && integer_part(inner_model(*a)) <= u64::MAX),
        r is Some ==> r->Some_0 as int == integer_part(inner_model(*a)),
{
    a.to_u64()
}

} // verus!
