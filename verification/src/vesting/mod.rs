//! Time-locked token release with cliff + linear vesting.
//!
//! [`VestingContract`] models the contract's storage. Entry points take the
//! current ledger time and return the amounts the host has to transfer.

pub mod laws;
pub mod math;
pub mod storage;

use vstd::prelude::*;

use crate::common::{trunc_div, Address, VestingError, VestingInfo, VestingStatus};

use self::math::{calculate_claimable, calculate_vested, spec_claimable, spec_vested, vested_fits};
use self::storage::VestingConfig;

verus! {

/// Vested amount of a schedule at ledger time `now` (`now >= start_time`).
pub open spec fn vested_at(c: VestingConfig, now: u64) -> int {
    spec_vested(
        c.total_amount,
        (now - c.start_time) as u64,
        c.cliff_duration,
        c.vesting_duration,
    )
}

/// The schedule can be evaluated at `now`: time has not gone back before
/// the start and the vesting product fits in `i128`.
pub open spec fn schedule_fits(c: VestingConfig, now: u64) -> bool {
    &&& now >= c.start_time
    &&& vested_fits(c.total_amount, (now - c.start_time) as u64, c.cliff_duration)
}

/// The time up to which a claim at `now` counts vesting: vesting stops at
/// the revocation time once the schedule has been revoked.
pub open spec fn claim_time(c: VestingConfig, now: u64) -> u64 {
    match c.revocation_time {
        Some(revoked_at) => if revoked_at <= now { revoked_at } else { now },
        None => now,
    }
}

/// A claim at `now` can be evaluated: time has not gone back before the
/// start, and the schedule fits in `i128` at the claim time.
pub open spec fn claim_fits(c: VestingConfig, now: u64) -> bool {
    now >= c.start_time && schedule_fits(c, claim_time(c, now))
}

/// Outcome of a claim by `beneficiary` at `now`, given what was claimed
/// before: everything vested up to the claim time that is not yet claimed.
pub open spec fn claim_result(c: VestingConfig, claimed: i128, beneficiary: Address, now: u64) -> Result<
    i128,
    VestingError,
> {
    if beneficiary != c.beneficiary {
        Err(VestingError::Unauthorized)
    } else {
        Ok(
            spec_claimable(
                c.total_amount,
                (claim_time(c, now) - c.start_time) as u64,
                c.cliff_duration,
                c.vesting_duration,
                claimed,
            ) as i128,
        )
    }
}

/// Outcome of a revocation by `admin` at `now`: the unvested remainder.
pub open spec fn revoke_result(c: VestingConfig, stored_admin: Address, admin: Address, now: u64) -> Result<
    i128,
    VestingError,
> {
    if admin != stored_admin {
        Err(VestingError::Unauthorized)
    } else if !c.revocable || c.revocation_time is Some {
        Err(VestingError::Unauthorized)
    } else {
        Ok((c.total_amount - vested_at(c, now)) as i128)
    }
}

/// The status a reader sees at `now`.
pub open spec fn status_at(c: VestingConfig, now: u64) -> VestingStatus {
    if c.revocation_time is Some {
        VestingStatus::Revoked
    } else if vested_at(c, now) >= c.total_amount {
        VestingStatus::Completed
    } else if now - c.start_time < c.cliff_duration {
        VestingStatus::NotStarted
    } else {
        VestingStatus::Vesting
    }
}

/// The storage of a vesting contract instance.
#[derive(Clone, Copy, Debug, PartialEq, Eq, Structural)]
pub struct VestingContract {
    /// The deployer, who may revoke a revocable schedule.
    pub admin: Option<Address>,
    /// The vesting schedule; `None` until `initialize` has run.
    pub config: Option<VestingConfig>,
    /// Tokens already claimed by the beneficiary.
    pub claimed: i128,
}

impl VestingContract {
    /// Every reachable state: admin and schedule are set together, the
    /// schedule is valid, and the claimed amount lies within the total.
    pub open spec fn wf(self) -> bool {
        &&& (self.admin is Some) == (self.config is Some)
        &&& self.config is Some ==> {
            &&& self.config.unwrap().wf()
            &&& 0 <= self.claimed <= self.config.unwrap().total_amount
            &&& self.config.unwrap().revocation_time is Some ==> self.config.unwrap().revocation_time.unwrap()
                >= self.config.unwrap().start_time
        }
        &&& self.config is None ==> self.claimed == 0
    }

    pub open spec fn initialized(self) -> bool {
        self.config is Some
    }

    pub open spec fn cfg(self) -> VestingConfig {
        self.config.unwrap()
    }

    /// An uninitialized vesting contract (empty storage).
    pub fn new() -> (s: VestingContract)
        ensures
            s.admin is None,
            s.config is None,
            s.claimed == 0,
            s.wf(),
    {
        VestingContract { admin: None, config: None, claimed: 0 }
    }

    /// The vesting schedule (the host panics before calling this on an
    /// uninitialized contract).
    pub fn get_config(&self) -> (c: VestingConfig)
        requires
            self.initialized(),
        ensures
            c == self.cfg(),
    {
        self.config.unwrap()
    }

    /// Amount already claimed.
    pub fn get_claimed(&self) -> (c: i128)
        ensures
            c == self.claimed,
    {
        self.claimed
    }

    /// The admin address (the host panics before calling this on an
    /// uninitialized contract).
    pub fn get_admin(&self) -> (a: Address)
        requires
            self.admin is Some,
        ensures
            a == self.admin.unwrap(),
    {
        self.admin.unwrap()
    }

    /// Whether the schedule can be evaluated at `now` (see `schedule_fits`).
    pub fn schedule_in_range(&self, now: u64) -> (ok: bool)
        requires
            self.initialized(),
        ensures
            ok == schedule_fits(self.cfg(), now),
    {
        let config = self.config.unwrap();
        if now < config.start_time {
            return false;
        }
        let elapsed = now - config.start_time;
        if elapsed < config.cliff_duration {
            return true;
        }
        let run = (elapsed - config.cliff_duration) as i128;
        config.total_amount.checked_mul(run).is_some()
    }

    /// Whether a claim at `now` can be evaluated (see `claim_fits`).
    pub fn claim_in_range(&self, now: u64) -> (ok: bool)
        requires
            self.wf(),
            self.initialized(),
        ensures
            ok == claim_fits(self.cfg(), now),
    {
        let config = self.config.unwrap();
        if now < config.start_time {
            return false;
        }
        let until = match config.revocation_time {
            Some(revoked_at) => if revoked_at <= now {
                revoked_at
            } else {
                now
            },
            None => now,
        };
        self.schedule_in_range(until)
    }

    /// Create the vesting schedule, starting at `now`. Requires a positive
    /// amount and a vesting period that ends after the cliff; otherwise
    /// fails with `NothingToVest` and changes nothing.
    pub fn initialize(
        &mut self,
        admin: Address,
        beneficiary: Address,
        asset: Address,
        total_amount: i128,
        cliff_duration: u64,
        vesting_duration: u64,
        revocable: bool,
        now: u64,
    ) -> (r: Result<(), VestingError>)
        requires
            old(self).wf(),
        ensures
            final(self).wf(),
            (total_amount <= 0 || vesting_duration <= cliff_duration) ==> r == Err::<
                (),
                VestingError,
            >(VestingError::NothingToVest) && *final(self) == *old(self),
            (total_amount > 0 && vesting_duration > cliff_duration) ==> r is Ok && *final(self)
                == (VestingContract {
                admin: Some(admin),
                config: Some(
                    VestingConfig {
                        beneficiary,
                        asset,
                        total_amount,
                        start_time: now,
                        cliff_duration,
                        vesting_duration,
                        revocable,
                        revocation_time: None,
                    },
                ),
                claimed: 0,
            }),
    {
        if total_amount <= 0 {
            return Err(VestingError::NothingToVest);
        }
        if vesting_duration <= cliff_duration {
            return Err(VestingError::NothingToVest);
        }
        self.admin = Some(admin);
        self.config = Some(
            VestingConfig {
                beneficiary,
                asset,
                total_amount,
                start_time: now,
                cliff_duration,
                vesting_duration,
                revocable,
                revocation_time: None,
            },
        );
        self.claimed = 0;
        Ok(())
    }

    /// Claim all currently vested, unclaimed tokens. Only the beneficiary may
    /// claim; after a revocation nothing vests beyond the revocation time.
    /// The returned amount is to be transferred to the beneficiary.
    pub fn claim(&mut self, beneficiary: Address, now: u64) -> (r: Result<i128, VestingError>)
        requires
            old(self).wf(),
            old(self).initialized(),
            beneficiary == old(self).cfg().beneficiary ==> claim_fits(old(self).cfg(), now),
        ensures
            final(self).wf(),
            final(self).admin == old(self).admin,
            final(self).config == old(self).config,
            r == claim_result(old(self).cfg(), old(self).claimed, beneficiary, now),
            final(self).claimed == (match r {
                Ok(amount) => old(self).claimed + amount,
                Err(_) => old(self).claimed as int,
            }),
    {
        let config = self.config.unwrap();
        let claimed = self.claimed;
        if beneficiary != config.beneficiary {
            return Err(VestingError::Unauthorized);
        }
        let mut until = now - config.start_time;
        if let Some(revoked_at) = config.revocation_time {
            if revoked_at <= now {
                until = revoked_at - config.start_time;
            }
        }
        let elapsed = until;
        proof {
            math::lemma_vested_bounds(
                config.total_amount,
                elapsed,
                config.cliff_duration,
                config.vesting_duration,
            );
        }
        let claimable = calculate_claimable(
            config.total_amount,
            elapsed,
            config.cliff_duration,
            config.vesting_duration,
            claimed,
        )?;
        if claimable <= 0 {
            return Ok(0);
        }
        self.claimed = claimed + claimable;
        Ok(claimable)
    }

    /// Revoke a revocable schedule (admin only, once). Returns the unvested
    /// remainder, which is to be transferred back to the admin.
    pub fn revoke(&mut self, admin: Address, now: u64) -> (r: Result<i128, VestingError>)
        requires
            old(self).wf(),
            old(self).initialized(),
            admin == old(self).admin.unwrap() && old(self).cfg().revocable && old(
                self,
            ).cfg().revocation_time is None ==> schedule_fits(old(self).cfg(), now),
        ensures
            final(self).wf(),
            final(self).admin == old(self).admin,
            final(self).claimed == old(self).claimed,
            r == revoke_result(old(self).cfg(), old(self).admin.unwrap(), admin, now),
            r is Ok ==> final(self).config == Some(
                VestingConfig { revocation_time: Some(now), ..old(self).cfg() },
            ),
            r is Err ==> *final(self) == *old(self),
    {
        let stored_admin = self.admin.unwrap();
        if admin != stored_admin {
            return Err(VestingError::Unauthorized);
        }
        let mut config = self.config.unwrap();
        if !config.revocable || config.revocation_time.is_some() {
            return Err(VestingError::Unauthorized);
        }
        let elapsed = now - config.start_time;
        proof {
            math::lemma_vested_bounds(
                config.total_amount,
                elapsed,
                config.cliff_duration,
                config.vesting_duration,
            );
        }
        let vested = calculate_vested(
            config.total_amount,
            elapsed,
            config.cliff_duration,
            config.vesting_duration,
        )?;
        let unvested = config.total_amount - vested;
        config.revocation_time = Some(now);
        self.config = Some(config);
        Ok(unvested)
    }

    /// Read-only: the schedule and what has vested at `now`.
    pub fn get_status(&self, now: u64) -> (r: Result<VestingInfo, VestingError>)
        requires
            self.wf(),
            self.initialized(),
            schedule_fits(self.cfg(), now),
        ensures
            r == Ok::<VestingInfo, VestingError>(
                VestingInfo {
                    beneficiary: self.cfg().beneficiary,
                    asset: self.cfg().asset,
                    total_amount: self.cfg().total_amount,
                    vested_amount: vested_at(self.cfg(), now) as i128,
                    start_time: self.cfg().start_time,
                    cliff_duration: self.cfg().cliff_duration,
                    vesting_duration: self.cfg().vesting_duration,
                    status: status_at(self.cfg(), now),
                },
            ),
    {
        let config = self.config.unwrap();
        let elapsed = now - config.start_time;
        proof {
            math::lemma_vested_bounds(
                config.total_amount,
                elapsed,
                config.cliff_duration,
                config.vesting_duration,
            );
        }
        let vested = calculate_vested(
            config.total_amount,
            elapsed,
            config.cliff_duration,
            config.vesting_duration,
        )?;
        let status = if config.revocation_time.is_some() {
            VestingStatus::Revoked
        } else if vested >= config.total_amount {
            VestingStatus::Completed
        } else if elapsed < config.cliff_duration {
            VestingStatus::NotStarted
        } else {
            VestingStatus::Vesting
        };
        Ok(
            VestingInfo {
                beneficiary: config.beneficiary,
                asset: config.asset,
                total_amount: config.total_amount,
                vested_amount: vested,
                start_time: config.start_time,
                cliff_duration: config.cliff_duration,
                vesting_duration: config.vesting_duration,
                status,
            },
        )
    }

    /// Read-only: tokens vesting per second after the cliff, rounded toward zero.
    pub fn get_flow_rate(&self) -> (r: Result<i128, VestingError>)
        requires
            self.wf(),
            self.initialized(),
        ensures
            r == Ok::<i128, VestingError>(
                trunc_div(
                    self.cfg().total_amount as int,
                    self.cfg().vesting_duration - self.cfg().cliff_duration,
                ) as i128,
            ),
    {
        let config = self.config.unwrap();
        let rate = config.total_amount / ((config.vesting_duration - config.cliff_duration) as i128);
        Ok(rate)
    }
}

} // verus!
