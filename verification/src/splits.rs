use vstd::prelude::*;
use vstd::arithmetic::div_mod::{
    lemma_div_is_ordered, lemma_div_multiples_vanish, lemma_fundamental_div_mod,
    lemma_fundamental_div_mod_converse,
};

verus! {

/// The integer share that `percentage` percent selects out of `base_balance`:
/// `floor(base_balance * percentage / 100)`.
///
/// For `percentage <= 100` the quotient fits in `u128`, so the cast is exact
/// there; [`share`] is only ever applied under that bound.
pub open spec fn share_amt(base_balance: u128, percentage: u32) -> u128 {
    ((base_balance * percentage) / 100) as u128
}

proof fn lemma_share_decomposition(base_balance: u128, percentage: u32)
    requires
        percentage <= 100,
    ensures
        ({
            let q = base_balance as int / 100;
            let rem = base_balance as int % 100;
            let p = percentage as int;
            &&& q * p + (rem * p) / 100 == (base_balance * percentage) / 100
            &&& q * p + (rem * p) / 100 <= base_balance
            &&& 0 <= q * p <= base_balance
            &&& 0 <= rem * p <= 9900
            &&& 0 <= (rem * p) / 100 <= rem
        }),
{
    let b = base_balance as int;
    let p = percentage as int;
    let q = b / 100;
    let rem = b % 100;
    lemma_fundamental_div_mod(b, 100);
    assert(b == 100 * q + rem);
    assert(0 <= rem < 100);
    assert(q >= 0) by (nonlinear_arith)
        requires b >= 0 && q == b / 100,
    ;
    assert(0 <= rem * p <= 99 * 100) by (nonlinear_arith)
        requires 0 <= rem < 100 && 0 <= p <= 100,
    ;
    let d = (rem * p) / 100;
    let m = (rem * p) % 100;
    lemma_fundamental_div_mod(rem * p, 100);
    assert(rem * p == 100 * d + m);
    assert(0 <= m < 100);
    assert(rem * p <= rem * 100) by (nonlinear_arith)
        requires 0 <= rem && 0 <= p <= 100,
    ;
    assert(rem * 100 <= 9900) by (nonlinear_arith)
        requires 0 <= rem < 100,
    ;
    assert(0 <= d <= rem) by (nonlinear_arith)
        requires
            0 <= rem * p,
            rem * p <= rem * 100,
            rem * p == 100 * d + m,
            0 <= m < 100,
            rem >= 0,
    ;
    // b * p == (q * p + d) * 100 + m
    assert(b * p == (q * p + d) * 100 + m) by (nonlinear_arith)
        requires
            b == 100 * q + rem,
            rem * p == 100 * d + m,
    ;
    lemma_fundamental_div_mod_converse(b * p, 100, q * p + d, m);
    assert((b * p) / 100 == q * p + d);
    assert(q * p <= q * 100) by (nonlinear_arith)
        requires q >= 0 && 0 <= p <= 100,
    ;
    assert(q * p >= 0) by (nonlinear_arith)
        requires q >= 0 && p >= 0,
    ;
    assert(q * 100 + rem <= b) by (nonlinear_arith)
        requires b == 100 * q + rem && 0 <= rem,
    ;
}

/// The split calculator: computes `floor(base_balance * percentage / 100)`
/// without widening past `u128`, by splitting the base into its hundreds and
/// its remainder. Used uniformly for every child beneficiary, terminal or not.
pub fn share(base_balance: u128, percentage: u32) -> (r: u128)
    requires
        percentage <= 100,
    ensures
        r == (base_balance * percentage) / 100,
        r == share_amt(base_balance, percentage),
        r <= base_balance,
{
    proof {
        lemma_share_decomposition(base_balance, percentage);
    }
    let quotient = base_balance / 100;
    let remainder = base_balance % 100;
    let p = percentage as u128;
    quotient * p + remainder * p / 100
}

/// For every base balance and every percentage up to one hundred, the computed
/// share is exactly the floor of `base_balance * percentage / 100`, and never
/// exceeds the base balance.
pub proof fn lemma_share_floor(base_balance: u128, percentage: u32)
    requires
        percentage <= 100,
    ensures
        share_amt(base_balance, percentage) == (base_balance * percentage) / 100,
        share_amt(base_balance, percentage) <= base_balance,
{
    lemma_share_decomposition(base_balance, percentage);
}

/// A zero base yields a zero share whatever the percentage, and a zero
/// percentage yields a zero share whatever the base.
pub proof fn lemma_share_zero(base_balance: u128, percentage: u32)
    ensures
        share_amt(0, percentage) == 0,
        share_amt(base_balance, 0) == 0,
{
    assert(0 * percentage == 0) by (nonlinear_arith);
    assert(base_balance * 0 == 0) by (nonlinear_arith);
}

/// The sum of a sequence of percentages.
pub open spec fn sum_percent(ps: Seq<u32>) -> int
    decreases ps.len(),
{
    if ps.len() == 0 {
        0
    } else {
        ps[0] + sum_percent(ps.drop_first())
    }
}

/// The sum of the shares that each percentage of `ps` selects out of the same
/// `base_balance` snapshot, as exact integers.
pub open spec fn sum_shares(base_balance: u128, ps: Seq<u32>) -> int
    decreases ps.len(),
{
    if ps.len() == 0 {
        0
    } else {
        (base_balance * ps[0]) / 100 + sum_shares(base_balance, ps.drop_first())
    }
}

/// Flooring is superadditive: splitting a numerator loses at most the
/// rounding dust, so the floors of the parts sum to at most the floor of the
/// whole.
proof fn lemma_div_superadd(x: int, y: int, d: int)
    requires
        0 <= x,
        0 <= y,
        0 < d,
    ensures
        x / d + y / d <= (x + y) / d,
{
    lemma_fundamental_div_mod(x, d);
    lemma_fundamental_div_mod(y, d);
    let q1 = x / d;
    let q2 = y / d;
    let r1 = x % d;
    let r2 = y % d;
    if r1 + r2 < d {
        assert(x + y == (q1 + q2) * d + (r1 + r2)) by (nonlinear_arith)
            requires x == d * q1 + r1 && y == d * q2 + r2,
        ;
        lemma_fundamental_div_mod_converse(x + y, d, q1 + q2, r1 + r2);
    } else {
        assert(x + y == (q1 + q2 + 1) * d + (r1 + r2 - d)) by (nonlinear_arith)
            requires x == d * q1 + r1 && y == d * q2 + r2,
        ;
        lemma_fundamental_div_mod_converse(x + y, d, q1 + q2 + 1, r1 + r2 - d);
    }
}

/// Truncation policy: because every share is rounded down, the shares of
/// percentages that together stay within one hundred sum to at most the base
/// balance they are taken from. The residual — rounding dust plus whatever
/// part of one hundred percent was never assigned — is implicitly retained by
/// the node.
pub proof fn lemma_sum_of_shares_bounded(base_balance: u128, ps: Seq<u32>)
    requires
        0 <= sum_percent(ps) <= 100,
    ensures
        sum_shares(base_balance, ps) <= (base_balance * sum_percent(ps)) / 100,
        sum_shares(base_balance, ps) <= base_balance,
    decreases ps.len(),
{
    let b = base_balance as int;
    let total = sum_percent(ps);
    if ps.len() == 0 {
        assert(b * 0 == 0) by (nonlinear_arith);
    } else {
        let p0 = ps[0] as int;
        let rest = ps.drop_first();
        assert(sum_percent(rest) >= 0) by {
            lemma_sum_percent_nonneg(rest);
        }
        lemma_sum_of_shares_bounded(base_balance, rest);
        assert(0 <= b * p0) by (nonlinear_arith)
            requires b >= 0 && p0 >= 0,
        ;
        assert(0 <= b * sum_percent(rest)) by (nonlinear_arith)
            requires b >= 0 && sum_percent(rest) >= 0,
        ;
        lemma_div_superadd(b * p0, b * sum_percent(rest), 100);
        assert(b * p0 + b * sum_percent(rest) == b * total) by (nonlinear_arith)
            requires total == p0 + sum_percent(rest),
        ;
    }
    assert(b * total <= b * 100) by (nonlinear_arith)
        requires b >= 0 && total <= 100,
    ;
    lemma_div_is_ordered(b * total, b * 100, 100);
    lemma_div_multiples_vanish(b, 100);
    assert(b * 100 == 100 * b) by (nonlinear_arith);
}

proof fn lemma_sum_percent_nonneg(ps: Seq<u32>)
    ensures
        sum_percent(ps) >= 0,
    decreases ps.len(),
{
    if ps.len() > 0 {
        lemma_sum_percent_nonneg(ps.drop_first());
    }
}

} // verus!
