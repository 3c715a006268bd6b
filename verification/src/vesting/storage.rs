//! The stored vesting schedule.

use vstd::prelude::*;

use crate::common::Address;

verus! {

/// Internal configuration for a vesting contract.
#[derive(Clone, Copy, Debug, PartialEq, Eq, Structural)]
pub struct VestingConfig {
    pub beneficiary: Address,
    pub asset: Address,
    pub total_amount: i128,
    pub start_time: u64,
    pub cliff_duration: u64,
    pub vesting_duration: u64,
    pub revocable: bool,
    pub revocation_time: Option<u64>,
}

impl VestingConfig {
    /// A schedule accepted by `initialize`: a positive amount and a vesting
    /// period that ends after the cliff.
    pub open spec fn wf(self) -> bool {
        self.total_amount > 0 && self.vesting_duration > self.cliff_duration
    }
}

} // verus!
