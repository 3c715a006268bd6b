//! Cliff + linear vesting schedule math.

use vstd::prelude::*;
use vstd::arithmetic::div_mod::{lemma_div_by_multiple, lemma_div_is_ordered, lemma_div_pos_is_pos};

use crate::common::{fits_i128, max_int, min_int, trunc_div, VestingError};

verus! {

/// Tokens vested `elapsed` seconds after the start of a schedule whose cliff
/// ends at `cliff_duration` and which vests fully at `vesting_duration`:
/// nothing before the cliff, then `total * (elapsed - cliff) / (duration - cliff)`
/// (rounded toward zero), capped at `total`.
pub open spec fn spec_vested(
    total_amount: i128,
    elapsed: u64,
    cliff_duration: u64,
    vesting_duration: u64,
) -> int {
    if elapsed < cliff_duration {
        0
    } else {
        min_int(
            trunc_div(
                total_amount * (elapsed - cliff_duration),
                vesting_duration - cliff_duration,
            ),
            total_amount as int,
        )
    }
}

/// The product in the vesting formula can be computed in `i128`.
pub open spec fn vested_fits(total_amount: i128, elapsed: u64, cliff_duration: u64) -> bool {
    elapsed < cliff_duration || fits_i128(total_amount * (elapsed - cliff_duration))
}

/// Calculate the vested amount `elapsed` seconds after the start.
///
/// Fails with `NothingToVest` when the schedule is invalid
/// (`vesting_duration <= cliff_duration`).
pub fn calculate_vested(
    total_amount: i128,
    elapsed: u64,
    cliff_duration: u64,
    vesting_duration: u64,
) -> (r: Result<i128, VestingError>)
    requires
        vesting_duration > cliff_duration ==> vested_fits(total_amount, elapsed, cliff_duration),
    ensures
        vesting_duration <= cliff_duration ==> r == Err::<i128, VestingError>(
            VestingError::NothingToVest,
        ),
        vesting_duration > cliff_duration ==> r == Ok::<i128, VestingError>(
            spec_vested(total_amount, elapsed, cliff_duration, vesting_duration) as i128,
        ),
{
    if vesting_duration <= cliff_duration {
        return Err(VestingError::NothingToVest);
    }
    let elapsed = elapsed as i128;
    let cliff = cliff_duration as i128;
    let duration = vesting_duration as i128;
    if elapsed < cliff {
        return Ok(0);
    }
    let vested = total_amount * (elapsed - cliff) / (duration - cliff);
    if vested <= total_amount {
        Ok(vested)
    } else {
        Ok(total_amount)
    }
}

/// The amount available to claim now: vested minus already claimed, never
/// negative.
pub open spec fn spec_claimable(
    total_amount: i128,
    elapsed: u64,
    cliff_duration: u64,
    vesting_duration: u64,
    already_claimed: i128,
) -> int {
    max_int(
        spec_vested(total_amount, elapsed, cliff_duration, vesting_duration) - already_claimed,
        0,
    )
}

/// Calculate the claimable amount (vested - already claimed, floored at 0).
pub fn calculate_claimable(
    total_amount: i128,
    elapsed: u64,
    cliff_duration: u64,
    vesting_duration: u64,
    already_claimed: i128,
) -> (r: Result<i128, VestingError>)
    requires
        vesting_duration > cliff_duration ==> vested_fits(total_amount, elapsed, cliff_duration)
            && fits_i128(
            spec_vested(total_amount, elapsed, cliff_duration, vesting_duration)
                - already_claimed,
        ),
    ensures
        vesting_duration <= cliff_duration ==> r == Err::<i128, VestingError>(
            VestingError::NothingToVest,
        ),
        vesting_duration > cliff_duration ==> r == Ok::<i128, VestingError>(
            spec_claimable(
                total_amount,
                elapsed,
                cliff_duration,
                vesting_duration,
                already_claimed,
            ) as i128,
        ),
{
    let vested = calculate_vested(total_amount, elapsed, cliff_duration, vesting_duration)?;
    let claimable = vested - already_claimed;
    if claimable >= 0 {
        Ok(claimable)
    } else {
        Ok(0)
    }
}

/// Before the cliff nothing is vested; from the end of the schedule on, the
/// whole amount is; in between the vested amount stays within `[0, total]`.
pub proof fn lemma_vested_bounds(
    total_amount: i128,
    elapsed: u64,
    cliff_duration: u64,
    vesting_duration: u64,
)
    requires
        total_amount >= 0,
        vesting_duration > cliff_duration,
    ensures
        elapsed < cliff_duration ==> spec_vested(
            total_amount,
            elapsed,
            cliff_duration,
            vesting_duration,
        ) == 0,
        elapsed >= vesting_duration ==> spec_vested(
            total_amount,
            elapsed,
            cliff_duration,
            vesting_duration,
        ) == total_amount,
        0 <= spec_vested(total_amount, elapsed, cliff_duration, vesting_duration) <= total_amount,
{
    if elapsed >= cliff_duration {
        let span = vesting_duration - cliff_duration;
        let run = elapsed - cliff_duration;
        lemma_div_pos_is_pos(total_amount * run, span);
        if elapsed >= vesting_duration {
            assert(total_amount * span <= total_amount * run) by (nonlinear_arith)
                requires
                    span <= run,
                    total_amount >= 0,
            ;
            lemma_div_is_ordered(total_amount * span, total_amount * run, span);
            lemma_div_by_multiple(total_amount as int, span);
        }
    }
}

/// Vesting never goes backwards: a later time has at least as much vested.
pub proof fn lemma_vested_monotonic(
    total_amount: i128,
    e1: u64,
    e2: u64,
    cliff_duration: u64,
    vesting_duration: u64,
)
    requires
        total_amount >= 0,
        vesting_duration > cliff_duration,
        e1 <= e2,
    ensures
        spec_vested(total_amount, e1, cliff_duration, vesting_duration) <= spec_vested(
            total_amount,
            e2,
            cliff_duration,
            vesting_duration,
        ),
{
    lemma_vested_bounds(total_amount, e1, cliff_duration, vesting_duration);
    lemma_vested_bounds(total_amount, e2, cliff_duration, vesting_duration);
    if e1 >= cliff_duration {
        let span = vesting_duration - cliff_duration;
        let r1 = e1 - cliff_duration;
        let r2 = e2 - cliff_duration;
        assert(total_amount * r1 <= total_amount * r2) by (nonlinear_arith)
            requires
                r1 <= r2,
                total_amount >= 0,
        ;
        assert(0 <= total_amount * r1) by (nonlinear_arith)
            requires
                0 <= r1,
                total_amount >= 0,
        ;
        lemma_div_is_ordered(total_amount * r1, total_amount * r2, span);
    }
}

} // verus!
