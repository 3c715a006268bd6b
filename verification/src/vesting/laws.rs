//! Properties of the vesting contract that span its operations.

use vstd::prelude::*;

use crate::common::{Address, VestingError, VestingStatus};

use super::math::{lemma_vested_bounds, lemma_vested_monotonic};
use super::storage::VestingConfig;
use super::{
    claim_fits, claim_result, claim_time, revoke_result, schedule_fits, status_at, vested_at,
};

verus! {

/// A claim brings the claimed total up to exactly what has vested by the
/// claim time (never beyond it), so an immediate second claim at the same
/// time yields nothing.
pub proof fn lemma_claim_catches_up_to_vested(
    c: VestingConfig,
    claimed: i128,
    beneficiary: Address,
    now: u64,
)
    requires
        c.wf(),
        0 <= claimed <= c.total_amount,
        c.revocation_time is Some ==> c.revocation_time.unwrap() >= c.start_time,
        claim_fits(c, now),
        beneficiary == c.beneficiary,
    ensures
        ({
            let vested = vested_at(c, claim_time(c, now));
            let paid = claim_result(c, claimed, beneficiary, now).unwrap();
            let after = claimed + paid;
            &&& paid >= 0
            &&& claimed <= vested ==> after == vested
            &&& claimed > vested ==> after == claimed
            &&& after <= c.total_amount
            &&& claim_result(c, after as i128, beneficiary, now) == Ok::<i128, VestingError>(0)
        }),
{
    lemma_vested_bounds(
        c.total_amount,
        (claim_time(c, now) - c.start_time) as u64,
        c.cliff_duration,
        c.vesting_duration,
    );
}

/// A revocation splits the schedule exactly: the returned unvested part and
/// the vested part add up to the total, and both are non-negative.
pub proof fn lemma_revoke_splits_total(c: VestingConfig, stored_admin: Address, now: u64)
    requires
        c.wf(),
        schedule_fits(c, now),
        revoke_result(c, stored_admin, stored_admin, now) is Ok,
    ensures
        ({
            let unvested = revoke_result(c, stored_admin, stored_admin, now).unwrap();
            &&& 0 <= unvested <= c.total_amount
            &&& unvested + vested_at(c, now) == c.total_amount
        }),
{
    lemma_vested_bounds(c.total_amount, (now - c.start_time) as u64, c.cliff_duration, c.vesting_duration);
}

/// A schedule can be revoked at most once.
pub proof fn lemma_revoke_only_once(c: VestingConfig, stored_admin: Address, who: Address, t1: u64, t2: u64)
    requires
        revoke_result(c, stored_admin, who, t1) is Ok,
    ensures
        revoke_result(
            VestingConfig { revocation_time: Some(t1), ..c },
            stored_admin,
            who,
            t2,
        ) is Err,
{
}

/// Claims made no later than a time `r` keep the claimed total within what
/// has vested at `r`.
pub proof fn lemma_claim_before_keeps_within_vested(
    c: VestingConfig,
    claimed: i128,
    t: u64,
    r: u64,
)
    requires
        c.wf(),
        c.revocation_time is None,
        0 <= claimed <= vested_at(c, r),
        c.start_time <= t <= r,
        schedule_fits(c, t),
        schedule_fits(c, r),
    ensures
        claimed + claim_result(c, claimed, c.beneficiary, t).unwrap() <= vested_at(c, r),
{
    lemma_vested_bounds(c.total_amount, (t - c.start_time) as u64, c.cliff_duration, c.vesting_duration);
    lemma_vested_monotonic(
        c.total_amount,
        (t - c.start_time) as u64,
        (r - c.start_time) as u64,
        c.cliff_duration,
        c.vesting_duration,
    );
}

/// Vesting stops at the revocation: if everything claimed so far is within
/// what had vested at the revocation time `r`, then any later claim keeps it
/// so, and the claimed total plus the unvested amount returned to the admin
/// never exceed the schedule's total.
pub proof fn lemma_revoked_claims_within_total(
    c: VestingConfig,
    admin: Address,
    claimed: i128,
    r: u64,
    t: u64,
)
    requires
        c.wf(),
        schedule_fits(c, r),
        revoke_result(c, admin, admin, r) is Ok,
        0 <= claimed <= vested_at(c, r),
        claim_fits(VestingConfig { revocation_time: Some(r), ..c }, t),
    ensures
        ({
            let revoked = VestingConfig { revocation_time: Some(r), ..c };
            let returned = revoke_result(c, admin, admin, r).unwrap();
            let after = claimed + claim_result(revoked, claimed, c.beneficiary, t).unwrap();
            &&& after <= vested_at(c, r)
            &&& after + returned <= c.total_amount
        }),
{
    let revoked = VestingConfig { revocation_time: Some(r), ..c };
    let until = claim_time(revoked, t);
    lemma_vested_bounds(c.total_amount, (r - c.start_time) as u64, c.cliff_duration, c.vesting_duration);
    lemma_vested_bounds(c.total_amount, (until - c.start_time) as u64, c.cliff_duration, c.vesting_duration);
    lemma_vested_monotonic(
        c.total_amount,
        (until - c.start_time) as u64,
        (r - c.start_time) as u64,
        c.cliff_duration,
        c.vesting_duration,
    );
}

/// A revocation is refused, with `Unauthorized`, exactly when the caller is
/// not the stored admin, the schedule is not revocable, or it was already
/// revoked; the time of the call plays no part in the decision.
pub proof fn lemma_revoke_refused_exactly(
    c: VestingConfig,
    stored_admin: Address,
    admin: Address,
    now: u64,
    later: u64,
)
    ensures
        revoke_result(c, stored_admin, admin, now) is Err <==> (admin != stored_admin
            || !c.revocable || c.revocation_time is Some),
        revoke_result(c, stored_admin, admin, now) is Err ==> revoke_result(
            c,
            stored_admin,
            admin,
            now,
        ) == Err::<i128, VestingError>(VestingError::Unauthorized),
        revoke_result(c, stored_admin, admin, now) is Err <==> revoke_result(
            c,
            stored_admin,
            admin,
            later,
        ) is Err,
{
}

/// The admin's first revocation of a revocable schedule succeeds at any time
/// from the start on and hands back the total minus what has vested by then:
/// the whole total before the cliff, `total - total * (e - cliff) / (duration
/// - cliff)` during the linear phase (`e` seconds after the start), and
/// nothing once the schedule has fully vested.
pub proof fn lemma_first_revocation_returns_unvested(c: VestingConfig, admin: Address, now: u64)
    requires
        c.wf(),
        c.revocable,
        c.revocation_time is None,
        schedule_fits(c, now),
    ensures
        ({
            let e = now - c.start_time;
            let r = revoke_result(c, admin, admin, now);
            &&& r is Ok
            &&& e < c.cliff_duration ==> r == Ok::<i128, VestingError>(c.total_amount)
            &&& c.cliff_duration <= e < c.vesting_duration ==> r->Ok_0 == c.total_amount - (
            c.total_amount * (e - c.cliff_duration)) / (c.vesting_duration - c.cliff_duration)
            &&& e >= c.vesting_duration ==> r == Ok::<i128, VestingError>(0)
            &&& 0 <= r->Ok_0 <= c.total_amount
        }),
{
    let e = (now - c.start_time) as u64;
    lemma_vested_bounds(c.total_amount, e, c.cliff_duration, c.vesting_duration);
    if c.cliff_duration <= e && e < c.vesting_duration {
        let run = e - c.cliff_duration;
        let span = c.vesting_duration - c.cliff_duration;
        assert(0 <= c.total_amount * run) by (nonlinear_arith)
            requires
                run >= 0,
                c.total_amount >= 0,
        ;
        assert(c.total_amount * run < c.total_amount * span) by (nonlinear_arith)
            requires
                run < span,
                c.total_amount > 0,
        ;
        assert((c.total_amount * run) / span < c.total_amount) by (nonlinear_arith)
            requires
                c.total_amount * run < c.total_amount * span,
                span > 0,
                0 <= c.total_amount * run,
        ;
    }
}

/// What a reader is told of a schedule `e = now - start` seconds after its
/// start: a revoked schedule is always reported `Revoked`, whatever the
/// time; an unrevoked one is `NotStarted` before the cliff, `Vesting` from
/// the cliff until the end of the vesting period, and `Completed` from then
/// on, which is exactly when its whole total has vested.
pub proof fn lemma_status_follows_schedule(c: VestingConfig, now: u64)
    requires
        c.wf(),
        now >= c.start_time,
    ensures
        ({
            let e = now - c.start_time;
            let s = status_at(c, now);
            &&& c.revocation_time is Some ==> s == VestingStatus::Revoked
            &&& s == VestingStatus::Revoked ==> c.revocation_time is Some
            &&& s == VestingStatus::Completed <==> (c.revocation_time is None && e
                >= c.vesting_duration)
            &&& s == VestingStatus::NotStarted <==> (c.revocation_time is None && e
                < c.cliff_duration)
            &&& s == VestingStatus::Vesting <==> (c.revocation_time is None && c.cliff_duration
                <= e < c.vesting_duration)
            &&& s == VestingStatus::Completed ==> vested_at(c, now) == c.total_amount
        }),
{
    let e = (now - c.start_time) as u64;
    lemma_vested_bounds(c.total_amount, e, c.cliff_duration, c.vesting_duration);
    if c.cliff_duration <= e && e < c.vesting_duration {
        let run = e - c.cliff_duration;
        let span = c.vesting_duration - c.cliff_duration;
        assert(0 <= c.total_amount * run) by (nonlinear_arith)
            requires
                run >= 0,
                c.total_amount >= 0,
        ;
        assert(c.total_amount * run < c.total_amount * span) by (nonlinear_arith)
            requires
                run < span,
                c.total_amount > 0,
        ;
        assert((c.total_amount * run) / span < c.total_amount) by (nonlinear_arith)
            requires
                c.total_amount * run < c.total_amount * span,
                span > 0,
                0 <= c.total_amount * run,
        ;
    }
}

} // verus!
