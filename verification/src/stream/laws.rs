//! Properties of the stream contract that span its operations.

use vstd::prelude::*;

use crate::common::{min_int, Address, StreamError, StreamStatus};

use super::math::{accrual_fits, spec_claimable, spec_derive_status, spec_remaining};
use super::storage::StreamConfig;
use super::{
    after_cancel, after_pause, after_resume, after_withdraw, cancel_result, initial_config,
    pause_result, resume_result, settlement_fits, withdraw_result,
};

verus! {

/// A withdrawal pays out exactly the balance a read reports at the same
/// time, and afterwards nothing more is claimable at that time.
pub proof fn lemma_withdraw_settles_balance(c: StreamConfig, recipient: Address, now: u64)
    requires
        c.wf(),
        accrual_fits(c, now),
        withdraw_result(c, recipient, now) is Ok,
    ensures
        withdraw_result(c, recipient, now).unwrap() == spec_claimable(c, now),
        spec_claimable(after_withdraw(c, now), now) == 0,
{
}

/// Whatever positive balance a read reports can be withdrawn by the
/// recipient at that same time, for exactly that amount.
pub proof fn lemma_positive_balance_is_withdrawable(c: StreamConfig, now: u64)
    requires
        c.wf(),
        spec_claimable(c, now) > 0,
    ensures
        withdraw_result(c, c.recipient, now) == Ok::<i128, crate::common::StreamError>(
            spec_claimable(c, now) as i128,
        ),
{
}

/// Escrow is conserved by a withdrawal: the amount paid out leaves the
/// escrow, is positive, and never exceeds what was left.
pub proof fn lemma_withdraw_conserves_escrow(c: StreamConfig, recipient: Address, now: u64)
    requires
        c.wf(),
        accrual_fits(c, now),
        withdraw_result(c, recipient, now) is Ok,
    ensures
        ({
            let paid = withdraw_result(c, recipient, now).unwrap();
            &&& 0 < paid <= spec_remaining(c)
            &&& paid + spec_remaining(after_withdraw(c, now)) == spec_remaining(c)
            &&& after_withdraw(c, now).withdrawn_amount <= c.total_amount
        }),
{
}

/// Escrow is conserved by a cancellation: the recipient's share and the
/// sender's refund are both non-negative, add up to the remaining escrow,
/// and nothing remains afterwards.
pub proof fn lemma_cancel_conserves_escrow(c: StreamConfig, sender: Address, now: u64)
    requires
        c.wf(),
        settlement_fits(c, now),
        cancel_result(c, sender, now) is Ok,
    ensures
        ({
            let s = cancel_result(c, sender, now).unwrap();
            &&& s.refund >= 0
            &&& s.to_recipient == spec_claimable(c, now)
            &&& s.to_recipient + s.refund == spec_remaining(c)
            &&& spec_remaining(after_cancel(c, now)) == 0
        }),
{
}

/// While a stream is paused the claimable balance is frozen: it is the same
/// at every time from the pause on.
pub proof fn lemma_pause_freezes_accrual(c: StreamConfig, t1: u64, t2: u64)
    requires
        c.wf(),
        c.status == StreamStatus::Paused,
        t1 >= c.paused_at.unwrap(),
        t2 >= c.paused_at.unwrap(),
    ensures
        spec_claimable(c, t1) == spec_claimable(c, t2),
{
}

/// Pausing at `p` and resuming at `r` cuts the paused window out of the
/// stream's timeline: `d` seconds after the resume, the balance is what it
/// would have been `d` seconds after `p` without the pause. With `d == 0`
/// this says the accrual before the pause is kept.
pub proof fn lemma_pause_resume_excludes_window(
    c: StreamConfig,
    sender: Address,
    p: u64,
    r: u64,
    d: u64,
)
    requires
        c.wf(),
        pause_result(c, sender) is Ok,
        c.last_update_time <= p <= r,
        r + d <= u64::MAX,
    ensures
        resume_result(after_pause(c, p), sender) is Ok,
        spec_claimable(after_resume(after_pause(c, p), r), (r + d) as u64) == spec_claimable(
            c,
            (p + d) as u64,
        ),
{
}

/// A withdrawal during a pause settles the frozen accrual, so after the
/// resume nothing is counted twice: `d` seconds after resuming, exactly
/// `d` seconds of accrual are claimable (capped at the escrow left).
pub proof fn lemma_withdraw_while_paused_no_double_accrual(
    c: StreamConfig,
    recipient: Address,
    t: u64,
    r: u64,
    d: u64,
)
    requires
        c.wf(),
        c.status == StreamStatus::Paused,
        c.last_update_time <= c.paused_at.unwrap() <= t <= r,
        r + d <= u64::MAX,
        accrual_fits(c, t),
        withdraw_result(c, recipient, t) is Ok,
    ensures
        spec_claimable(after_resume(after_withdraw(c, t), r), (r + d) as u64) == min_int(
            c.flow_rate * d,
            spec_remaining(after_withdraw(c, t)),
        ),
{
}

/// Cancellation is terminal: every later withdraw, pause, resume or cancel
/// request fails (and a failed request leaves the state unchanged).
pub proof fn lemma_cancel_is_terminal(c: StreamConfig, now: u64, who: Address, later: u64)
    requires
        c.wf(),
    ensures
        withdraw_result(after_cancel(c, now), who, later) is Err,
        pause_result(after_cancel(c, now), who) is Err,
        resume_result(after_cancel(c, now), who) is Err,
        cancel_result(after_cancel(c, now), who, later) is Err,
{
}

/// A cancelled stream is never reported as completed; `Completed` is
/// reported exactly for an active stream whose escrow is fully withdrawn.
pub proof fn lemma_completed_only_when_active_and_drained(c: StreamConfig)
    ensures
        c.status == StreamStatus::Cancelled ==> spec_derive_status(c) == StreamStatus::Cancelled,
        c.wf() ==> (spec_derive_status(c) == StreamStatus::Completed <==> (c.status
            == StreamStatus::Active && c.withdrawn_amount >= c.total_amount)),
{
}

/// The balance of a stream, in terms of its fields: accrual at `flow_rate`
/// per second from the checkpoint up to the current time (or the pause time,
/// while paused), capped at the escrow not yet withdrawn.
pub proof fn lemma_claimable_formula(c: StreamConfig, now: u64)
    ensures
        ({
            let until: int = match c.paused_at {
                Some(p) => if p <= now { p as int } else { now as int },
                None => now as int,
            };
            let elapsed: int = if until >= c.last_update_time { until - c.last_update_time } else { 0 };
            spec_claimable(c, now) == min_int(
                c.flow_rate * elapsed,
                c.total_amount - c.withdrawn_amount,
            )
        }),
{
}

/// A withdrawal by the recipient of a running stream at time `t` (not before
/// the checkpoint) pays `min(flow_rate * (t - checkpoint), remaining)`, adds
/// it to the withdrawn total, and moves the checkpoint to exactly `t`, so
/// accrual continues from there: `d` seconds later the balance is
/// `min(flow_rate * d, remaining escrow)`.
pub proof fn lemma_withdraw_continues_accrual_from_now(
    c: StreamConfig,
    t: u64,
    d: u64,
)
    requires
        c.wf(),
        c.status == StreamStatus::Active,
        c.last_update_time <= t,
        t + d <= u64::MAX,
        accrual_fits(c, t),
        c.flow_rate * (t - c.last_update_time) > 0,
        c.withdrawn_amount < c.total_amount,
    ensures
        ({
            let paid = min_int(
                c.flow_rate * (t - c.last_update_time),
                c.total_amount - c.withdrawn_amount,
            );
            let after = after_withdraw(c, t);
            &&& withdraw_result(c, c.recipient, t) == Ok::<i128, StreamError>(paid as i128)
            &&& after.withdrawn_amount == c.withdrawn_amount + paid
            &&& after.last_update_time == t
            &&& after.status == StreamStatus::Active
            &&& after.paused_at is None
            &&& after.flow_rate == c.flow_rate
            &&& after.total_amount == c.total_amount
            &&& after.recipient == c.recipient
            &&& after.sender == c.sender
            &&& spec_claimable(after, (t + d) as u64) == min_int(
                c.flow_rate * d,
                c.total_amount - after.withdrawn_amount,
            )
        }),
{
}

/// A withdrawal while paused at `p` (at a time `t >= p`) moves the
/// checkpoint to the pause time exactly, never later.
pub proof fn lemma_withdraw_while_paused_checkpoint(c: StreamConfig, recipient: Address, t: u64)
    requires
        c.wf(),
        c.status == StreamStatus::Paused,
        c.paused_at.unwrap() <= t,
    ensures
        after_withdraw(c, t).last_update_time == c.paused_at.unwrap(),
        after_withdraw(c, t).paused_at == c.paused_at,
        after_withdraw(c, t).status == StreamStatus::Paused,
{
}

/// The sender can pause exactly the streams that are running and not fully
/// withdrawn, whatever has been withdrawn before; pausing records the pause
/// time and changes nothing else.
pub proof fn lemma_pause_succeeds_exactly_when_running(c: StreamConfig, now: u64)
    requires
        c.wf(),
    ensures
        (pause_result(c, c.sender) is Ok) <==> (c.status == StreamStatus::Active
            && c.withdrawn_amount < c.total_amount),
        pause_result(c, c.sender) is Ok ==> after_pause(c, now) == (StreamConfig {
            status: StreamStatus::Paused,
            paused_at: Some(now),
            ..c
        }),
{
}

/// The sender can cancel exactly the streams that are not cancelled and not
/// fully withdrawn (active or paused, whatever was withdrawn before). The
/// recipient gets what has accrued and is unwithdrawn, the sender the rest
/// of the escrow, and the stream ends cancelled and fully paid out.
pub proof fn lemma_cancel_succeeds_exactly_when_open(c: StreamConfig, now: u64)
    requires
        c.wf(),
        settlement_fits(c, now),
    ensures
        (cancel_result(c, c.sender, now) is Ok) <==> (c.status != StreamStatus::Cancelled
            && c.withdrawn_amount < c.total_amount),
        cancel_result(c, c.sender, now) is Ok ==> {
            let s = cancel_result(c, c.sender, now).unwrap();
            let until: int = match c.paused_at {
                Some(p) => if p <= now { p as int } else { now as int },
                None => now as int,
            };
            let elapsed: int = if until >= c.last_update_time { until - c.last_update_time } else { 0 };
            &&& s.to_recipient == min_int(c.flow_rate * elapsed, c.total_amount - c.withdrawn_amount)
            &&& s.refund == c.total_amount - c.withdrawn_amount - s.to_recipient
            &&& after_cancel(c, now).status == StreamStatus::Cancelled
            &&& after_cancel(c, now).withdrawn_amount == c.total_amount
            &&& after_cancel(c, now).paused_at is None
        },
{
}

/// The sender can resume exactly the streams that are paused; resuming makes
/// the stream active again, clears the pause time, and keeps every other
/// field but the checkpoint. Any other request is refused with
/// `StreamNotPaused`.
pub proof fn lemma_resume_succeeds_exactly_when_paused(c: StreamConfig, now: u64)
    requires
        c.wf(),
    ensures
        (resume_result(c, c.sender) is Ok) <==> c.status == StreamStatus::Paused,
        c.status != StreamStatus::Paused ==> resume_result(c, c.sender) == Err::<(), StreamError>(
            StreamError::StreamNotPaused,
        ),
        resume_result(c, c.sender) is Ok ==> after_resume(c, now) == (StreamConfig {
            status: StreamStatus::Active,
            paused_at: None,
            last_update_time: after_resume(c, now).last_update_time,
            ..c
        }),
{
}

/// Only the parties of a stream act on it: anyone but the recipient is
/// refused a withdrawal, and anyone but the sender is refused a pause, a
/// resume or a cancellation, each with `Unauthorized`, whatever the state.
pub proof fn lemma_only_parties_act(c: StreamConfig, who: Address, now: u64)
    ensures
        who != c.recipient ==> withdraw_result(c, who, now) == Err::<i128, StreamError>(
            StreamError::Unauthorized,
        ),
        who != c.sender ==> pause_result(c, who) == Err::<(), StreamError>(
            StreamError::Unauthorized,
        ),
        who != c.sender ==> resume_result(c, who) == Err::<(), StreamError>(
            StreamError::Unauthorized,
        ),
        who != c.sender ==> cancel_result(c, who, now) == Err::<super::CancelSettlement, StreamError>(
            StreamError::Unauthorized,
        ),
{
}

/// A freshly initialized stream is active with nothing withdrawn and
/// accrues from its start time: `d` seconds after the start the balance is
/// `min(flow_rate * d, total_amount)`, and nothing before the start.
pub proof fn lemma_fresh_stream_accrues_from_start(
    factory: Address,
    sender: Address,
    recipient: Address,
    asset: Address,
    flow_rate: i128,
    total_amount: i128,
    start_time: u64,
    now: u64,
)
    ensures
        ({
            let c = initial_config(
                factory,
                sender,
                recipient,
                asset,
                flow_rate,
                total_amount,
                start_time,
            );
            &&& c.status == StreamStatus::Active && c.paused_at is None
            &&& c.withdrawn_amount == 0
            &&& c.sender == sender && c.recipient == recipient && c.asset == asset
            &&& c.factory == factory && c.flow_rate == flow_rate && c.total_amount == total_amount
            &&& c.start_time == start_time
            &&& now >= start_time ==> spec_claimable(c, now) == min_int(
                flow_rate * (now - start_time),
                total_amount as int,
            )
            &&& now < start_time ==> spec_claimable(c, now) == min_int(0, total_amount as int)
        }),
{
}

} // verus!
