//! Facts about decimal values that hold for every input: the identities of
//! zero and one, and that the order of a sum does not change its value.
use crate::decimal::total_model;
use crate::model::{
    abs, common_scale, int_model, max_int, num_at, pow10, product_model, same_value, sum_model,
    trunc_div, DecimalModel,
};
use vstd::prelude::*;
use vstd::arithmetic::div_mod::lemma_div_denominator;
use vstd::seq_lib::{to_multiset_contains, to_multiset_len, to_multiset_remove};

verus! {

pub proof fn lemma_pow10_positive(n: nat)
    ensures
        pow10(n) > 0,
    decreases n,
{
    if n > 0 {
        lemma_pow10_positive((n - 1) as nat);
    }
}

pub proof fn lemma_pow10_monotone(a: nat, b: nat)
    requires
        a <= b,
    ensures
        pow10(a) <= pow10(b),
    decreases b,
{
    if a < b {
        lemma_pow10_monotone(a, (b - 1) as nat);
        lemma_pow10_positive((b - 1) as nat);
    }
}

pub proof fn lemma_pow10_17()
    ensures
        pow10(17) == 100000000000000000,
{
    reveal_with_fuel(pow10, 18);
}

pub proof fn lemma_pow10_add(a: nat, b: nat)
    ensures
        pow10(a + b) == pow10(a) * pow10(b),
    decreases a,
{
    if a > 0 {
        lemma_pow10_add((a - 1) as nat, b);
        assert(pow10(a + b) == 10 * pow10((a - 1 + b) as nat));
        assert(10 * (pow10((a - 1) as nat) * pow10(b)) == (10 * pow10((a - 1) as nat)) * pow10(b))
            by (nonlinear_arith);
    }
}

/// Truncating division by `a` and then by `b` is truncating division by `a * b`.
pub proof fn lemma_trunc_div_twice(x: int, a: int, b: int)
    requires
        a > 0,
        b > 0,
    ensures
        trunc_div(trunc_div(x, a), b) == trunc_div(x, a * b),
{
    assert(a * b > 0) by (nonlinear_arith)
        requires
            a > 0,
            b > 0,
    ;
    lemma_div_denominator(abs(x), a, b);
    assert(abs(x) / a >= 0) by (nonlinear_arith)
        requires
            a > 0,
            abs(x) >= 0,
    ;
    assert(0int / b == 0);
}

/// Writing `d` with more fractional digits multiplies its unscaled integer by
/// the matching power of ten.
proof fn lemma_num_at_lift(d: DecimalModel, t: int, u: int)
    requires
        d.scale <= t <= u,
    ensures
        num_at(d, u) == num_at(d, t) * pow10((u - t) as nat),
{
    lemma_pow10_add((t - d.scale) as nat, (u - t) as nat);
    assert(((t - d.scale) as nat + (u - t) as nat) as nat == (u - d.scale) as nat);
    let x = d.unscaled;
    let p = pow10((t - d.scale) as nat);
    let q = pow10((u - t) as nat);
    assert(x * (p * q) == (x * p) * q) by (nonlinear_arith);
}

/// Two values are equal exactly when they agree at any common scale.
proof fn lemma_same_value_at(a: DecimalModel, b: DecimalModel, u: int)
    requires
        a.scale <= u,
        b.scale <= u,
    ensures
        same_value(a, b) <==> num_at(a, u) == num_at(b, u),
{
    let t = common_scale(a, b);
    lemma_num_at_lift(a, t, u);
    lemma_num_at_lift(b, t, u);
    lemma_pow10_positive((u - t) as nat);
    let p = pow10((u - t) as nat);
    let x = num_at(a, t);
    let y = num_at(b, t);
    assert(x * p == y * p <==> x == y) by (nonlinear_arith)
        requires
            p > 0,
    ;
}

/// At a scale that both summands reach, the unscaled integers add up.
proof fn lemma_sum_at(a: DecimalModel, b: DecimalModel, u: int)
    requires
        a.scale <= u,
        b.scale <= u,
    ensures
        num_at(sum_model(a, b), u) == num_at(a, u) + num_at(b, u),
{
    let t = common_scale(a, b);
    let s = sum_model(a, b);
    lemma_num_at_lift(s, t, u);
    lemma_num_at_lift(a, t, u);
    lemma_num_at_lift(b, t, u);
    let p = pow10((u - t) as nat);
    let x = num_at(a, t);
    let y = num_at(b, t);
    assert((x + y) * p == x * p + y * p) by (nonlinear_arith);
}

pub proof fn lemma_same_value_transitive(a: DecimalModel, b: DecimalModel, c: DecimalModel)
    requires
        same_value(a, b),
        same_value(b, c),
    ensures
        same_value(a, c),
{
    let u = max_int(max_int(a.scale, b.scale), c.scale);
    lemma_same_value_at(a, b, u);
    lemma_same_value_at(b, c, u);
    lemma_same_value_at(a, c, u);
}

/// Adding the same value to two equal values gives equal sums.
pub proof fn lemma_sum_congruent(a: DecimalModel, a2: DecimalModel, b: DecimalModel)
    requires
        same_value(a, a2),
    ensures
        same_value(sum_model(a, b), sum_model(a2, b)),
{
    let u = max_int(max_int(a.scale, a2.scale), b.scale);
    lemma_same_value_at(a, a2, u);
    lemma_sum_at(a, b, u);
    lemma_sum_at(a2, b, u);
    lemma_same_value_at(sum_model(a, b), sum_model(a2, b), u);
}

/// Zero added to any value leaves that value.
pub proof fn lemma_zero_add_identity(x: DecimalModel)
    ensures
        same_value(sum_model(int_model(0), x), x),
{
    let u = max_int(0, x.scale);
    lemma_sum_at(int_model(0), x, u);
    assert(num_at(int_model(0), u) == 0) by (nonlinear_arith);
    lemma_same_value_at(sum_model(int_model(0), x), x, u);
}

/// One times any value leaves that value.
pub proof fn lemma_one_mul_identity(x: DecimalModel)
    ensures
        same_value(product_model(int_model(1), x), x),
{
    assert(product_model(int_model(1), x) == x);
}

pub open spec fn max_scale(s: Seq<DecimalModel>) -> int
    decreases s.len(),
{
    if s.len() == 0 {
        0
    } else {
        max_int(max_scale(s.drop_last()), s.last().scale)
    }
}

pub open spec fn int_total(s: Seq<DecimalModel>, u: int) -> int
    decreases s.len(),
{
    if s.len() == 0 {
        0
    } else {
        int_total(s.drop_last(), u) + num_at(s.last(), u)
    }
}

proof fn lemma_total_at(s: Seq<DecimalModel>, u: int)
    requires
        max_scale(s) <= u,
    ensures
        total_model(s).scale == max_scale(s),
        num_at(total_model(s), u) == int_total(s, u),
    decreases s.len(),
{
    if s.len() == 0 {
        assert(num_at(int_model(0), u) == 0) by (nonlinear_arith);
    } else {
        lemma_total_at(s.drop_last(), u);
        lemma_sum_at(total_model(s.drop_last()), s.last(), u);
    }
}

proof fn lemma_int_total_remove(s: Seq<DecimalModel>, j: int, u: int)
    requires
        0 <= j < s.len(),
    ensures
        int_total(s, u) == int_total(s.remove(j), u) + num_at(s[j], u),
    decreases s.len(),
{
    if j == s.len() - 1 {
        assert(s.remove(j) =~= s.drop_last());
    } else {
        lemma_int_total_remove(s.drop_last(), j, u);
        assert(s.remove(j).drop_last() =~= s.drop_last().remove(j));
        assert(s.remove(j).last() == s.last());
    }
}

proof fn lemma_int_total_permutation(s1: Seq<DecimalModel>, s2: Seq<DecimalModel>, u: int)
    requires
        s1.to_multiset() == s2.to_multiset(),
    ensures
        int_total(s1, u) == int_total(s2, u),
    decreases s1.len(),
{
    to_multiset_len(s1);
    to_multiset_len(s2);
    if s1.len() > 0 {
        let x = s1.last();
        to_multiset_contains(s1, x);
        assert(s1.contains(x)) by {
            assert(s1[s1.len() - 1] == x);
        }
        to_multiset_contains(s2, x);
        let j = choose|j: int| 0 <= j < s2.len() && s2[j] == x;
        to_multiset_remove(s1, s1.len() - 1);
        to_multiset_remove(s2, j);
        assert(s1.remove(s1.len() - 1) =~= s1.drop_last());
        lemma_int_total_permutation(s1.drop_last(), s2.remove(j), u);
        lemma_int_total_remove(s2, j, u);
    }
}

/// Summing the same values in any order gives the same value.
pub proof fn lemma_sum_order_irrelevant(s1: Seq<DecimalModel>, s2: Seq<DecimalModel>)
    requires
        s1.to_multiset() == s2.to_multiset(),
    ensures
        same_value(total_model(s1), total_model(s2)),
{
    let u = max_int(max_scale(s1), max_scale(s2));
    lemma_total_at(s1, u);
    lemma_total_at(s2, u);
    lemma_int_total_permutation(s1, s2, u);
    lemma_same_value_at(total_model(s1), total_model(s2), u);
}

} // verus!
