//! Pure stream accounting: accrual, remaining escrow, flow rate, status.

use vstd::prelude::*;

use crate::common::{fits_i128, min_int, trunc_div, StreamError, StreamStatus};

use super::storage::StreamConfig;

verus! {

/// The time up to which accrual counts: the pause time while paused
/// (or the current time, if that is earlier), otherwise the current time.
pub open spec fn spec_effective_time(config: StreamConfig, current_time: u64) -> u64 {
    match config.paused_at {
        Some(paused_at) => if paused_at <= current_time { paused_at } else { current_time },
        None => current_time,
    }
}

/// Seconds of accrual since the last checkpoint; zero if the effective
/// time lies before the checkpoint.
pub open spec fn spec_elapsed(config: StreamConfig, current_time: u64) -> int {
    let effective = spec_effective_time(config, current_time);
    if effective >= config.last_update_time {
        effective - config.last_update_time
    } else {
        0
    }
}

/// Tokens accrued since the last checkpoint.
pub open spec fn spec_accrued(config: StreamConfig, current_time: u64) -> int {
    config.flow_rate * spec_elapsed(config, current_time)
}

/// Tokens still held in escrow for the recipient.
pub open spec fn spec_remaining(config: StreamConfig) -> int {
    config.total_amount - config.withdrawn_amount
}

/// What the recipient may withdraw now: the accrual, capped at the escrow.
pub open spec fn spec_claimable(config: StreamConfig, current_time: u64) -> int {
    min_int(spec_accrued(config, current_time), spec_remaining(config))
}

/// The accrual and the remaining escrow can both be computed in `i128`.
pub open spec fn accrual_fits(config: StreamConfig, current_time: u64) -> bool {
    fits_i128(spec_accrued(config, current_time)) && fits_i128(spec_remaining(config))
}

/// The status a reader sees: the stored status, except that an active
/// stream whose escrow has been fully withdrawn is reported `Completed`.
pub open spec fn spec_derive_status(config: StreamConfig) -> StreamStatus {
    match config.status {
        StreamStatus::Cancelled => StreamStatus::Cancelled,
        StreamStatus::Active => if config.withdrawn_amount >= config.total_amount {
            StreamStatus::Completed
        } else {
            StreamStatus::Active
        },
        status => status,
    }
}

/// Calculate the current claimable balance for a stream.
///
/// `effective = min(paused_at, current_time)` while paused, else `current_time`;
/// `elapsed = effective - last_update_time` (saturating at zero);
/// `claimable = min(flow_rate * elapsed, total_amount - withdrawn_amount)`.
pub fn calculate_claimable(config: &StreamConfig, current_time: u64) -> (claimable: i128)
    requires
        accrual_fits(*config, current_time),
    ensures
        claimable == spec_claimable(*config, current_time),
{
    let effective = effective_time(config, current_time);
    let elapsed = effective.saturating_sub(config.last_update_time);
    let accrued = config.flow_rate * (elapsed as i128);
    let remaining = config.total_amount - config.withdrawn_amount;
    if accrued <= remaining {
        accrued
    } else {
        remaining
    }
}

/// Whether `calculate_claimable` can be evaluated for this configuration at
/// this time without leaving the `i128` range.
pub fn accrual_in_range(config: &StreamConfig, current_time: u64) -> (ok: bool)
    ensures
        ok == accrual_fits(*config, current_time),
{
    let effective = effective_time(config, current_time);
    let elapsed = effective.saturating_sub(config.last_update_time);
    let accrued = config.flow_rate.checked_mul(elapsed as i128);
    let remaining = config.total_amount.checked_sub(config.withdrawn_amount);
    accrued.is_some() && remaining.is_some()
}

/// The ledger time up to which the recipient's accrual is currently counted.
pub fn effective_time(config: &StreamConfig, current_time: u64) -> (t: u64)
    ensures
        t == spec_effective_time(*config, current_time),
{
    match config.paused_at {
        Some(paused_at) => if paused_at <= current_time {
            paused_at
        } else {
            current_time
        },
        None => current_time,
    }
}

/// Calculate the per-second flow rate from total amount and duration,
/// rounding down; the remainder is dust that never streams.
pub fn calculate_flow_rate(amount: i128, duration: u32) -> (r: Result<i128, StreamError>)
    ensures
        amount <= 0 ==> r == Err::<i128, StreamError>(StreamError::ZeroAmount),
        amount > 0 && duration == 0 ==> r == Err::<i128, StreamError>(
            StreamError::InvalidFlowRate,
        ),
        amount > 0 && duration > 0 ==> r == Ok::<i128, StreamError>(
            trunc_div(amount as int, duration as int) as i128,
        ),
{
    if amount <= 0 {
        return Err(StreamError::ZeroAmount);
    }
    if duration == 0 {
        return Err(StreamError::InvalidFlowRate);
    }
    Ok(amount / (duration as i128))
}

/// Streaming `duration` seconds at the computed flow rate never pays out
/// more than `amount`, and leaves less than one second's worth (the dust)
/// unstreamed.
pub proof fn lemma_flow_rate_dust(amount: i128, duration: u32)
    requires
        amount > 0,
        duration > 0,
    ensures
        ({
            let rate = trunc_div(amount as int, duration as int);
            &&& rate >= 0
            &&& rate * duration <= amount
            &&& amount - rate * duration < duration
        }),
{
    let a = amount as int;
    let d = duration as int;
    vstd::arithmetic::div_mod::lemma_fundamental_div_mod(a, d);
    vstd::arithmetic::div_mod::lemma_div_pos_is_pos(a, d);
    assert((a / d) * d <= a && a - (a / d) * d < d) by (nonlinear_arith)
        requires
            d > 0,
            a == d * (a / d) + a % d,
            0 <= a % d < d,
    ;
}

/// Calculate remaining unstreamed tokens.
pub fn calculate_remaining(config: &StreamConfig) -> (r: i128)
    requires
        fits_i128(spec_remaining(*config)),
    ensures
        r == spec_remaining(*config),
{
    config.total_amount - config.withdrawn_amount
}

/// Derive the current stream status from config state.
pub fn derive_status(config: &StreamConfig) -> (s: StreamStatus)
    ensures
        s == spec_derive_status(*config),
{
    match config.status {
        StreamStatus::Cancelled => StreamStatus::Cancelled,
        StreamStatus::Active => if config.withdrawn_amount >= config.total_amount {
            StreamStatus::Completed
        } else {
            StreamStatus::Active
        },
        StreamStatus::Paused => StreamStatus::Paused,
        StreamStatus::Completed => StreamStatus::Completed,
    }
}

} // verus!
