//! Proportional share math for multi-recipient streams.

use vstd::prelude::*;
use vstd::arithmetic::div_mod::{lemma_div_is_ordered, lemma_div_by_multiple, lemma_div_pos_is_pos, lemma_fundamental_div_mod};
use vstd::arithmetic::mul::lemma_mul_is_distributive_add;

use crate::common::{fits_i128, max_int, trunc_div};

verus! {

/// A recipient's proportional share of `accrued`:
/// `accrued * recipient_weight / total_weight` (rounded toward zero).
pub open spec fn spec_share(accrued: i128, recipient_weight: u32, total_weight: u32) -> int {
    trunc_div(accrued * recipient_weight, total_weight as int)
}

/// What a recipient can withdraw now: their share minus what they already
/// withdrew, never negative; zero when no weight is assigned at all.
pub open spec fn spec_recipient_share(
    accrued: i128,
    recipient_weight: u32,
    total_weight: u32,
    already_withdrawn: i128,
) -> int {
    if total_weight == 0 {
        0
    } else {
        max_int(spec_share(accrued, recipient_weight, total_weight) - already_withdrawn, 0)
    }
}

/// Calculate a single recipient's claimable share of accrued funds.
pub fn calculate_recipient_share(
    accrued: i128,
    recipient_weight: u32,
    total_weight: u32,
    already_withdrawn: i128,
) -> (r: i128)
    requires
        total_weight != 0 ==> fits_i128(accrued * recipient_weight) && fits_i128(
            spec_share(accrued, recipient_weight, total_weight) - already_withdrawn,
        ),
    ensures
        r == spec_recipient_share(accrued, recipient_weight, total_weight, already_withdrawn),
{
    if total_weight == 0 {
        return 0;
    }
    let share = accrued * (recipient_weight as i128) / (total_weight as i128);
    let claimable = share - already_withdrawn;
    if claimable >= 0 {
        claimable
    } else {
        0
    }
}

/// Shares never over-allocate: for non-negative accruals, two recipients
/// whose weights together do not exceed the total weight receive together
/// at most the accrued amount, and each share is non-negative.
pub proof fn lemma_shares_within_accrued(accrued: i128, w1: u32, w2: u32, total_weight: u32)
    requires
        accrued >= 0,
        total_weight > 0,
        w1 + w2 <= total_weight,
    ensures
        0 <= spec_share(accrued, w1, total_weight),
        0 <= spec_share(accrued, w2, total_weight),
        spec_share(accrued, w1, total_weight) + spec_share(accrued, w2, total_weight) <= accrued,
{
    let t = total_weight as int;
    let a1 = accrued * w1;
    let a2 = accrued * w2;
    assert(0 <= a1 && 0 <= a2 && a1 + a2 <= accrued * t) by (nonlinear_arith)
        requires
            accrued >= 0,
            w1 >= 0,
            w2 >= 0,
            w1 + w2 <= t,
            a1 == accrued * w1,
            a2 == accrued * w2,
    ;
    lemma_div_pos_is_pos(a1, t);
    lemma_div_pos_is_pos(a2, t);
    lemma_fundamental_div_mod(a1, t);
    lemma_fundamental_div_mod(a2, t);
    lemma_fundamental_div_mod(a1 + a2, t);
    lemma_div_is_ordered(a1 + a2, accrued * t, t);
    lemma_div_by_multiple(accrued as int, t);
    assert((a1 / t) + (a2 / t) <= (a1 + a2) / t) by (nonlinear_arith)
        requires
            t > 0,
            a1 == t * (a1 / t) + a1 % t,
            a2 == t * (a2 / t) + a2 % t,
            a1 + a2 == t * ((a1 + a2) / t) + (a1 + a2) % t,
            0 <= a1 % t < t,
            0 <= a2 % t < t,
            0 <= (a1 + a2) % t < t,
    ;
}

/// The sum of a list of weights.
pub open spec fn sum_weights(weights: Seq<u32>) -> int
    decreases weights.len(),
{
    if weights.len() == 0 {
        0
    } else {
        sum_weights(weights.drop_last()) + weights.last()
    }
}

/// The total paid out when `accrued` is split between recipients with the
/// given weights, none of whom has withdrawn anything yet.
pub open spec fn sum_shares(accrued: i128, weights: Seq<u32>, total_weight: u32) -> int
    decreases weights.len(),
{
    if weights.len() == 0 {
        0
    } else {
        sum_shares(accrued, weights.drop_last(), total_weight) + spec_recipient_share(
            accrued,
            weights.last(),
            total_weight,
            0,
        )
    }
}

/// Each share rounds down by less than one unit: scaled by the total
/// weight, the split falls short of `accrued * sum(weights)` by at most
/// `total_weight - 1` per recipient, and never exceeds it.
proof fn lemma_sum_shares_scaled(accrued: i128, weights: Seq<u32>, total_weight: u32)
    requires
        accrued >= 0,
        total_weight > 0,
    ensures
        total_weight * sum_shares(accrued, weights, total_weight) <= accrued * sum_weights(weights),
        accrued * sum_weights(weights) - total_weight * sum_shares(accrued, weights, total_weight)
            <= weights.len() * (total_weight - 1),
    decreases weights.len(),
{
    if weights.len() > 0 {
        let rest = weights.drop_last();
        let w = weights.last();
        let t = total_weight as int;
        let a = accrued as int;
        lemma_sum_shares_scaled(accrued, rest, total_weight);
        let aw = a * w;
        assert(aw >= 0) by (nonlinear_arith)
            requires
                a >= 0,
                w >= 0,
                aw == a * w,
        ;
        lemma_fundamental_div_mod(aw, t);
        let q = aw / t;
        lemma_div_pos_is_pos(aw, t);
        assert(spec_recipient_share(accrued, w, total_weight, 0) == q);
        let s_rest = sum_shares(accrued, rest, total_weight);
        let w_rest = sum_weights(rest);
        lemma_mul_is_distributive_add(a, w_rest, w as int);
        lemma_mul_is_distributive_add(t, s_rest, q);
        assert(t * q <= aw && aw - t * q <= t - 1) by (nonlinear_arith)
            requires
                aw == t * q + aw % t,
                0 <= aw % t < t,
        ;
        assert(rest.len() * (t - 1) + (t - 1) == weights.len() * (t - 1)) by (nonlinear_arith)
            requires
                weights.len() == rest.len() + 1,
        ;
    }
}

/// Splitting by weights never over-allocates and loses little to rounding:
/// when the weights add up to the total weight, the shares of a
/// non-negative accrual add up to at most the accrual and to more than the
/// accrual minus the number of recipients.
pub proof fn lemma_weighted_split(accrued: i128, weights: Seq<u32>, total_weight: u32)
    requires
        accrued >= 0,
        total_weight > 0,
        sum_weights(weights) == total_weight,
    ensures
        sum_shares(accrued, weights, total_weight) <= accrued,
        sum_shares(accrued, weights, total_weight) > accrued - weights.len(),
{
    lemma_sum_shares_scaled(accrued, weights, total_weight);
    let t = total_weight as int;
    let a = accrued as int;
    let s = sum_shares(accrued, weights, total_weight);
    let k = weights.len() as int;
    if k == 0 {
        assert(sum_weights(weights) == 0);
    }
    assert(s <= a && s > a - k) by (nonlinear_arith)
        requires
            t > 0,
            k > 0,
            t * s <= a * t,
            a * t - t * s <= k * (t - 1),
    ;
}

/// A recipient's claimable share in plain arithmetic: nothing when no
/// weight is assigned at all; otherwise, for a non-negative accrual, the
/// floor of `accrued * recipient_weight / total_weight` minus what the
/// recipient already withdrew, or zero if that is negative.
pub proof fn lemma_recipient_share_formula(
    accrued: i128,
    recipient_weight: u32,
    total_weight: u32,
    already_withdrawn: i128,
)
    requires
        accrued >= 0,
    ensures
        total_weight == 0 ==> spec_recipient_share(
            accrued,
            recipient_weight,
            total_weight,
            already_withdrawn,
        ) == 0,
        total_weight != 0 ==> {
            let r = spec_recipient_share(accrued, recipient_weight, total_weight, already_withdrawn);
            let share = r + already_withdrawn;
            &&& r >= 0
            &&& r > 0 ==> total_weight * share <= accrued * recipient_weight < total_weight * (
            share + 1)
            &&& r == 0 ==> (accrued * recipient_weight) / (total_weight as int) <= already_withdrawn
        },
{
    if total_weight != 0 {
        let p = accrued * recipient_weight;
        let t = total_weight as int;
        assert(0 <= p) by (nonlinear_arith)
            requires
                accrued >= 0,
                recipient_weight >= 0,
                p == accrued * recipient_weight,
        ;
        lemma_fundamental_div_mod(p, t);
        assert(t * (p / t) <= p < t * (p / t + 1)) by (nonlinear_arith)
            requires
                t > 0,
                p == t * (p / t) + p % t,
                0 <= p % t < t,
        ;
    }
}

} // verus!
