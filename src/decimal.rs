use crate::engine::{
    add_inner, integer_part, to_i64_inner, to_u64_inner, bigint_div_i64, bigint_mul_i64, clone_inner, cmp_inner, decimal_text, div_inner,
    eq_inner, inner_from_i64, inner_from_parts, inner_from_u64, inner_model, is_negative_inner,
    is_positive_inner, is_zero_inner, mul_inner, neg_inner, normalized_inner, one_inner,
    bigint_value, parse_bigint, parse_inner, parsed_decimal, parts_of_inner, quotient_parts, rem_inner,
    round_inner, rounded_parts, sub_inner, text_of_inner, zero_inner,
};
use crate::errors::BaseCrateError;
use crate::laws::{
    lemma_pow10_17, lemma_pow10_add, lemma_pow10_monotone, lemma_pow10_positive,
    lemma_same_value_transitive, lemma_sum_congruent, lemma_trunc_div_twice,
};
use crate::text::{
    contains_exponent, has_exponent, at_most_one_dot, has_at_most_one_dot, rescale_text, rescaled_text, truncate_fraction,
    truncated_text,
};
use crate::model::{
    is_integer_text, multipliable, normalizable, quotient_fits, roundable,
    abs, compare_values, difference_model, int_model, integer_value, is_normalized_form_of,
    is_plain_integer, is_plain_numeral, negation_model, numeral_model, pair_model, pow10,
    product_model, remainder_model, rescaled_model, same_value, sum_model, trunc_div, DecimalModel,
};
use bigdecimal::num_bigint::ParseBigIntError;
use bigdecimal::ParseBigDecimalError;
use vstd::prelude::*;

verus! {

/// An arbitrary-precision decimal: an unscaled integer and a base-10 scale.
#[derive(Debug)]
pub struct BigDecimal {
    inner: bigdecimal::BigDecimal,
}

impl View for BigDecimal {
    type V = DecimalModel;

    closed spec fn view(&self) -> DecimalModel {
        inner_model(self.inner)
    }
}

/// `10^k` as an `i64`.
fn ten_to_the(k: u64) -> (r: i64)
    requires
        k <= 18,
    ensures
        r as int == pow10(k as nat),
{
    let mut r: i64 = 1;
    let mut i: u64 = 0;
    while i < k
        invariant
            0 <= i <= k <= 18,
            r as int == pow10(i as nat),
        decreases k - i,
    {
        proof {
            lemma_pow10_monotone(i as nat, 17);
            lemma_pow10_17();
            lemma_pow10_positive(i as nat);
            assert(0 < r <= 100000000000000000);
        }
        r = r * 10;
        i = i + 1;
    }
    r
}

/// The quotient that the engine computes for `a / b`.
pub open spec fn quotient_model(a: DecimalModel, b: DecimalModel) -> DecimalModel {
    pair_model(quotient_parts(a.unscaled, a.scale, b.unscaled, b.scale))
}

/// The value that the engine's `round` gives for `a` at `digits` fractional digits.
pub open spec fn round_model(a: DecimalModel, digits: int) -> DecimalModel {
    pair_model(rounded_parts(a.unscaled, a.scale, digits))
}

/// The text that `to_string` renders for `a`.
pub open spec fn text_model(a: DecimalModel) -> Seq<char> {
    decimal_text(a.unscaled, a.scale)
}

/// The rendered text of `a` with its fraction cut to `digits` characters.
pub open spec fn round_safe_text(a: DecimalModel, digits: int) -> Seq<char> {
    truncated_text(text_model(a), digits)
}

/// The sum of all values of `s`, added from the left starting at zero.
pub open spec fn total_model(s: Seq<DecimalModel>) -> DecimalModel
    decreases s.len(),
{
    if s.len() == 0 {
        int_model(0)
    } else {
        sum_model(total_model(s.drop_last()), s.last())
    }
}

pub open spec fn views(values: Seq<BigDecimal>) -> Seq<DecimalModel> {
    values.map_values(|v: BigDecimal| v@)
}

impl BigDecimal {
    pub fn new_from_inner(inner: bigdecimal::BigDecimal) -> (r: BigDecimal)
        ensures
            r@ == inner_model(inner),
    {
        BigDecimal { inner }
    }

    /// Hands out the engine's value, for conversions that only the engine offers.
    pub fn to_inner(&self) -> (r: bigdecimal::BigDecimal)
        ensures
            inner_model(r) == self@,
    {
        clone_inner(&self.inner)
    }

    pub fn zero() -> (r: BigDecimal)
        ensures
            r@ == int_model(0),
    {
        BigDecimal { inner: zero_inner() }
    }

    pub fn one() -> (r: BigDecimal)
        ensures
            r@ == int_model(1),
    {
        BigDecimal { inner: one_inner() }
    }

    pub fn from_i64(n: i64) -> (r: Option<BigDecimal>)
        ensures
            r is Some && r->Some_0@ == int_model(n as int),
    {
        Some(BigDecimal { inner: inner_from_i64(n) })
    }

    pub fn from_u64(n: u64) -> (r: Option<BigDecimal>)
        ensures
            r is Some && r->Some_0@ == int_model(n as int),
    {
        Some(BigDecimal { inner: inner_from_u64(n) })
    }

    pub fn from_i32(n: i32) -> (r: BigDecimal)
        ensures
            r@ == int_model(n as int),
    {
        BigDecimal { inner: inner_from_i64(n as i64) }
    }

    /// Parses a decimal numeral with the engine's grammar.
    pub fn from_str(s: &str) -> (r: Result<BigDecimal, ParseBigDecimalError>)
        ensures
            r is Ok <==> parsed_decimal(s@) is Some,
            r is Ok ==> r->Ok_0@ == pair_model(parsed_decimal(s@).unwrap()),
            is_plain_numeral(s@) ==> r is Ok && r->Ok_0@ == numeral_model(s@),
    {
        match parse_inner(s) {
            Ok(inner) => Ok(BigDecimal { inner }),
            Err(e) => Err(e),
        }
    }

    /// The value `digits * 10^(-scale)`, with `digits` read as an integer.
    pub fn string_to_bigdecimal(digits: &str, scale: i64) -> (r: Result<
        BigDecimal,
        ParseBigIntError,
    >)
        ensures
            is_plain_integer(digits@) ==> r is Ok && r->Ok_0@ == (DecimalModel {
                unscaled: integer_value(digits@),
                scale: scale as int,
            }),
            r is Ok <==> is_integer_text(digits@),
            r is Ok ==> r->Ok_0@.scale == scale,
    {
        match parse_bigint(digits) {
            Ok(int_val) => Ok(BigDecimal { inner: inner_from_parts(int_val, scale) }),
            Err(e) => Err(e),
        }
    }

    /// Parses both numerals and divides. This path has no error: callers that
    /// need one use `div`.
    pub fn divide_and_into_bigdecimal(first: &str, second: &str) -> (r: BigDecimal)
        requires
            is_plain_numeral(first@),
            is_plain_numeral(second@),
            numeral_model(second@).unscaled != 0,
            quotient_fits(numeral_model(first@), numeral_model(second@)),
        ensures
            r@ == quotient_model(numeral_model(first@), numeral_model(second@)),
    {
        // Both numerals are plain, so neither `Err` arm can be taken.
        let a = match parse_inner(first) {
            Ok(a) => a,
            Err(_) => { return BigDecimal::zero(); },
        };
        let b = match parse_inner(second) {
            Ok(b) => b,
            Err(_) => { return BigDecimal::zero(); },
        };
        BigDecimal { inner: div_inner(&a, &b) }
    }

    pub fn normalized(&self) -> (r: BigDecimal)
        requires
            normalizable(self@),
        ensures
            is_normalized_form_of(r@, self@),
    {
        BigDecimal { inner: normalized_inner(&self.inner) }
    }

    /// Strictly greater than zero.
    pub fn gt_zero(&self) -> (r: bool)
        ensures
            r == (self@.unscaled > 0),
    {
        self.is_positive() && !self.is_zero()
    }

    pub fn is_positive(&self) -> (r: bool)
        ensures
            r == (self@.unscaled > 0),
    {
        is_positive_inner(&self.inner)
    }

    pub fn is_zero(&self) -> (r: bool)
        ensures
            r == (self@.unscaled == 0),
    {
        is_zero_inner(&self.inner)
    }

    pub fn is_negative(&self) -> (r: bool)
        ensures
            r == (self@.unscaled < 0),
    {
        is_negative_inner(&self.inner)
    }

    /// The number of digits after the decimal point in the stored form.
    pub fn scale(&self) -> (r: i64)
        ensures
            r as int == self@.scale,
    {
        parts_of_inner(&self.inner).1
    }

    /// Re-expresses the value with `scale` fractional digits by multiplying or
    /// truncating-dividing the unscaled integer by a power of ten, applied in
    /// steps that fit an `i64`.
    pub fn scale_to(&self, scale: i64) -> (r: BigDecimal)
        ensures
            r@ == rescaled_model(self@, scale as int),
    {
        let (big_value, exp) = parts_of_inner(&self.inner);
        let down = exp > scale;
        let total: u64 = if down {
            (exp as i128 - scale as i128) as u64
        } else {
            (scale as i128 - exp as i128) as u64
        };
        let ghost x = bigint_value(big_value);
        let mut value = big_value;
        let mut remaining: u64 = total;
        proof {
            assert(pow10(0) == 1);
            assert(abs(x) / 1 == abs(x)) by (nonlinear_arith);
            assert(trunc_div(x, 1) == x);
        }
        while remaining > 0
            invariant
                remaining <= total,
                down ==> bigint_value(value) == trunc_div(x, pow10((total - remaining) as nat)),
                !down ==> bigint_value(value) == x * pow10((total - remaining) as nat),
            decreases remaining,
        {
            let step: u64 = if remaining > 18 {
                18
            } else {
                remaining
            };
            let factor = ten_to_the(step);
            let ghost done = (total - remaining) as nat;
            proof {
                lemma_pow10_positive(done);
                lemma_pow10_positive(step as nat);
                lemma_pow10_add(done, step as nat);
                assert((done + step as nat) as nat == (total - (remaining - step)) as nat);
            }
            if down {
                proof {
                    lemma_trunc_div_twice(x, pow10(done), pow10(step as nat));
                }
                value = bigint_div_i64(value, factor);
            } else {
                proof {
                    let p = pow10(done);
                    let q = pow10(step as nat);
                    assert(x * p * q == x * (p * q)) by (nonlinear_arith);
                }
                value = bigint_mul_i64(value, factor);
            }
            remaining = remaining - step;
        }
        BigDecimal { inner: inner_from_parts(value, scale) }
    }

    /// Rounds to `round_digits` fractional digits with the engine's rounding mode.
    pub fn round(&self, round_digits: i64) -> (r: BigDecimal)
        requires
            roundable(self@, round_digits as int),
        ensures
            r@ == round_model(self@, round_digits as int),
            round_digits >= self@.scale ==> same_value(r@, self@),
            r@.scale == round_digits,
    {
        BigDecimal { inner: round_inner(&self.inner, round_digits) }
    }

    /// The integer part, cut toward zero, where it fits an `i64`.
    pub fn to_i64(&self) -> (r: Option<i64>)
        ensures
            r is Some <==> i64::MIN <= integer_part(self@) <= i64::MAX,
            r is Some ==> r->Some_0 as int == integer_part(self@),
    {
        to_i64_inner(&self.inner)
    }

    /// The integer part of a value that is not negative, where it fits a `u64`.
    pub fn to_u64(&self) -> (r: Option<u64>)
        ensures
            r is Some <==> self@.unscaled >= 0 && integer_part(self@) <= u64::MAX,
            r is Some ==> r->Some_0 as int == integer_part(self@),
    {
        to_u64_inner(&self.inner)
    }

    /// The engine's text, which `from_str` reads back as an equal value.
    pub fn to_string(&self) -> (r: String)
        ensures
            r@ == text_model(self@),
            parsed_decimal(r@) is Some,
            same_value(pair_model(parsed_decimal(r@).unwrap()), self@),
    {
        text_of_inner(&self.inner)
    }

    /// Truncates (never rounds) the rendered fraction to `round_digits`
    /// characters and reads the result back. The truncated text must parse:
    /// `round_safe_checked` tests that first.
    pub fn round_safe(&self, round_digits: i64) -> (r: BigDecimal)
        requires
            parsed_decimal(round_safe_text(self@, round_digits as int)) is Some,
        ensures
            r@ == pair_model(parsed_decimal(round_safe_text(self@, round_digits as int)).unwrap()),
    {
        let text = truncate_fraction(&self.to_string(), round_digits);
        // The `requires` rules out the `Err` arm.
        match parse_inner(&text) {
            Ok(inner) => BigDecimal { inner },
            Err(_) => BigDecimal::zero(),
        }
    }

    /// `round_safe` where the truncated text parses, else `None`.
    pub fn round_safe_checked(&self, round_digits: i64) -> (r: Option<BigDecimal>)
        ensures
            r is Some <==> parsed_decimal(round_safe_text(self@, round_digits as int)) is Some,
            r is Some ==> r->Some_0@ == pair_model(
                parsed_decimal(round_safe_text(self@, round_digits as int)).unwrap(),
            ),
    {
        let text = truncate_fraction(&self.to_string(), round_digits);
        match parse_inner(&text) {
            Ok(_) => Some(self.round_safe(round_digits)),
            Err(_) => None,
        }
    }

    /// Re-expresses the value with at most `scale` fractional digits by cutting
    /// its rendered text, then reads it back. The rendered text must hold at
    /// most one `.` and no exponent: `try_scale_to2` tests that first.
    pub fn scale_to2(&self, scale: i64) -> (r: Result<BigDecimal, ParseBigDecimalError>)
        requires
            at_most_one_dot(text_model(self@)),
            !has_exponent(text_model(self@)),
        ensures
            r is Ok <==> parsed_decimal(rescaled_text(text_model(self@), scale as int)) is Some,
            r is Ok ==> r->Ok_0@ == pair_model(
                parsed_decimal(rescaled_text(text_model(self@), scale as int)).unwrap(),
            ),
    {
        let text = rescale_text(&self.to_string(), scale);
        BigDecimal::from_str(&text)
    }

    /// `scale_to2` where the rendered text holds at most one `.` and no
    /// exponent, else `None`.
    pub fn try_scale_to2(&self, scale: i64) -> (r: Option<Result<BigDecimal, ParseBigDecimalError>>)
        ensures
            r is Some <==> (at_most_one_dot(text_model(self@)) && !has_exponent(
                text_model(self@),
            )),
            r is Some ==> (r->Some_0 is Ok <==> parsed_decimal(
                rescaled_text(text_model(self@), scale as int),
            ) is Some),
            r is Some && r->Some_0 is Ok ==> r->Some_0->Ok_0@ == pair_model(
                parsed_decimal(rescaled_text(text_model(self@), scale as int)).unwrap(),
            ),
    {
        let text = self.to_string();
        if has_at_most_one_dot(&text) && !contains_exponent(&text) {
            Some(self.scale_to2(scale))
        } else {
            None
        }
    }

    /// Adds up `values` from the left, starting at zero.
    pub fn sum(values: &Vec<BigDecimal>) -> (r: BigDecimal)
        ensures
            same_value(r@, total_model(views(values@))),
    {
        let mut acc = BigDecimal::zero();
        let mut i: usize = 0;
        while i < values.len()
            invariant
                i <= values@.len(),
                same_value(acc@, total_model(views(values@).take(i as int))),
            decreases values@.len() - i,
        {
            let next = acc.add(&values[i]);
            proof {
                let s = views(values@);
                assert(s.take(i as int + 1).drop_last() =~= s.take(i as int));
                lemma_sum_congruent(acc@, total_model(s.take(i as int)), values@[i as int]@);
                lemma_same_value_transitive(next@, sum_model(acc@, values@[i as int]@),
                    sum_model(total_model(s.take(i as int)), values@[i as int]@));
            }
            acc = next;
            i = i + 1;
        }
        proof {
            assert(views(values@).take(i as int) =~= views(values@));
        }
        acc
    }

    pub fn add(&self, rhs: &BigDecimal) -> (r: BigDecimal)
        ensures
            same_value(r@, sum_model(self@, rhs@)),
    {
        BigDecimal { inner: add_inner(&self.inner, &rhs.inner) }
    }

    pub fn add_i32(&self, rhs: i32) -> (r: BigDecimal)
        ensures
            same_value(r@, sum_model(self@, int_model(rhs as int))),
    {
        self.add(&BigDecimal::from_i32(rhs))
    }

    /// Adds `rhs` in place.
    pub fn add_assign(&mut self, rhs: BigDecimal)
        ensures
            same_value(final(self)@, sum_model(old(self)@, rhs@)),
    {
        self.inner = add_inner(&self.inner, &rhs.inner);
    }

    pub fn sub(&self, rhs: &BigDecimal) -> (r: BigDecimal)
        ensures
            same_value(r@, difference_model(self@, rhs@)),
    {
        BigDecimal { inner: sub_inner(&self.inner, &rhs.inner) }
    }

    pub fn sub_i32(&self, rhs: i32) -> (r: BigDecimal)
        ensures
            same_value(r@, difference_model(self@, int_model(rhs as int))),
    {
        self.sub(&BigDecimal::from_i32(rhs))
    }

    pub fn mul(&self, rhs: &BigDecimal) -> (r: BigDecimal)
        requires
            multipliable(self@, rhs@),
        ensures
            same_value(r@, product_model(self@, rhs@)),
    {
        BigDecimal { inner: mul_inner(&self.inner, &rhs.inner) }
    }

    pub fn mul_i32(&self, rhs: i32) -> (r: BigDecimal)
        requires
            multipliable(self@, int_model(rhs as int)),
        ensures
            same_value(r@, product_model(self@, int_model(rhs as int))),
    {
        self.mul(&BigDecimal::from_i32(rhs))
    }

    pub fn neg(&self) -> (r: BigDecimal)
        ensures
            r@ == negation_model(self@),
    {
        BigDecimal { inner: neg_inner(&self.inner) }
    }

    /// Checked division: a zero divisor is an error, never a panic.
    pub fn div(&self, rhs: &BigDecimal) -> (r: Result<BigDecimal, BaseCrateError>)
        requires
            rhs@.unscaled != 0 ==> quotient_fits(self@, rhs@),
        ensures
            rhs@.unscaled == 0 <==> r is Err,
            r is Err ==> r->Err_0 is DivisionByZero,
            r is Ok ==> r->Ok_0@ == quotient_model(self@, rhs@),
    {
        if rhs.is_zero() {
            Err(BaseCrateError::DivisionByZero)
        } else {
            Ok(BigDecimal { inner: div_inner(&self.inner, &rhs.inner) })
        }
    }

    pub fn div_i32(&self, rhs: i32) -> (r: Result<BigDecimal, BaseCrateError>)
        requires
            rhs != 0 ==> quotient_fits(self@, int_model(rhs as int)),
        ensures
            rhs == 0 <==> r is Err,
            r is Err ==> r->Err_0 is DivisionByZero,
            r is Ok ==> r->Ok_0@ == quotient_model(self@, int_model(rhs as int)),
    {
        self.div(&BigDecimal::from_i32(rhs))
    }

    /// Remainder of truncating division; the divisor must not be zero.
    pub fn rem(&self, rhs: &BigDecimal) -> (r: BigDecimal)
        requires
            rhs@.unscaled != 0,
        ensures
            r@ == remainder_model(self@, rhs@),
    {
        BigDecimal { inner: rem_inner(clone_inner(&self.inner), clone_inner(&rhs.inner)) }
    }
}

impl Clone for BigDecimal {
    fn clone(&self) -> (r: BigDecimal)
        ensures
            r@ == self@,
    {
        BigDecimal { inner: clone_inner(&self.inner) }
    }
}

impl Default for BigDecimal {
    fn default() -> (r: BigDecimal)
        ensures
            r@ == int_model(0),
    {
        BigDecimal::zero()
    }
}

impl PartialEq for BigDecimal {
    fn eq(&self, other: &BigDecimal) -> (r: bool) {
        eq_inner(&self.inner, &other.inner)
    }
}

impl vstd::std_specs::cmp::PartialEqSpecImpl for BigDecimal {
    open spec fn obeys_eq_spec() -> bool {
        true
    }

    open spec fn eq_spec(&self, other: &BigDecimal) -> bool {
        same_value(self@, other@)
    }
}

impl PartialOrd for BigDecimal {
    fn partial_cmp(&self, other: &BigDecimal) -> (r: Option<core::cmp::Ordering>) {
        Some(cmp_inner(&self.inner, &other.inner))
    }
}

impl vstd::std_specs::cmp::PartialOrdSpecImpl for BigDecimal {
    open spec fn obeys_partial_cmp_spec() -> bool {
        true
    }

    open spec fn partial_cmp_spec(&self, other: &BigDecimal) -> Option<core::cmp::Ordering> {
        Some(compare_values(self@, other@))
    }
}

} // verus!
