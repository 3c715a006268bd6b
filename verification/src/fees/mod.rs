//! Protocol fee collection.
//!
//! [`FeeContract`] models the fee contract's storage; entry points return
//! the amounts the host has to transfer.

pub mod math;

use vstd::prelude::*;

use crate::common::{fits_i128, Address, FeeError};

use self::math::spec_fee;

verus! {

/// A withdrawal with the protocol fee deducted: `net` goes to the
/// recipient, `fee` stays with the fee contract.
#[derive(Clone, Copy, Debug, PartialEq, Eq, Structural)]
pub struct FeeSplit {
    pub fee: i128,
    pub net: i128,
}

/// Accumulated fees paid out to the fee recipient.
#[derive(Clone, Copy, Debug, PartialEq, Eq, Structural)]
pub struct FeePayout {
    pub amount: i128,
    pub recipient: Address,
}

/// The storage of the fee contract.
#[derive(Clone, Copy, Debug, PartialEq, Eq, Structural)]
pub struct FeeContract {
    /// Admin address that controls fee settings.
    pub admin: Option<Address>,
    /// Address where collected fees are sent on withdrawal.
    pub fee_recipient: Option<Address>,
    /// Fee rate in basis points (100 = 1%).
    pub fee_rate: u32,
    /// Fees collected and not yet withdrawn.
    pub accumulated_fees: i128,
}

impl FeeContract {
    /// Admin and fee recipient are set together by `initialize`.
    pub open spec fn wf(self) -> bool {
        (self.admin is Some) == (self.fee_recipient is Some)
    }

    /// A fee contract with empty storage.
    pub fn new() -> (s: FeeContract)
        ensures
            s == (FeeContract { admin: None, fee_recipient: None, fee_rate: 0, accumulated_fees: 0 }),
            s.wf(),
    {
        FeeContract { admin: None, fee_recipient: None, fee_rate: 0, accumulated_fees: 0 }
    }

    /// Set the admin and fee recipient, and reset the fee rate to zero.
    pub fn initialize(&mut self, admin: Address, fee_recipient: Address)
        ensures
            *final(self) == (FeeContract {
                admin: Some(admin),
                fee_recipient: Some(fee_recipient),
                fee_rate: 0,
                ..*old(self)
            }),
            final(self).wf(),
    {
        self.admin = Some(admin);
        self.fee_recipient = Some(fee_recipient);
        self.fee_rate = 0;
    }

    pub fn get_admin(&self) -> (a: Address)
        requires
            self.admin is Some,
        ensures
            a == self.admin.unwrap(),
    {
        self.admin.unwrap()
    }

    pub fn get_fee_recipient(&self) -> (a: Address)
        requires
            self.fee_recipient is Some,
        ensures
            a == self.fee_recipient.unwrap(),
    {
        self.fee_recipient.unwrap()
    }

    pub fn get_fee_rate(&self) -> (r: u32)
        ensures
            r == self.fee_rate,
    {
        self.fee_rate
    }

    /// Read-only: the total accumulated fees awaiting withdrawal.
    pub fn get_accumulated_fees(&self) -> (f: i128)
        ensures
            f == self.accumulated_fees,
    {
        self.accumulated_fees
    }

    /// The fee on `amount` at the configured rate.
    pub fn calculate_fee(&self, amount: i128) -> (r: Result<i128, FeeError>)
        ensures
            r == spec_fee(amount, self.fee_rate),
    {
        math::calculate_fee(amount, self.fee_rate)
    }

    /// Whether adding the fee on `amount` to the accumulated fees stays
    /// within `i128` (when the fee itself can be computed).
    pub fn accumulation_in_range(&self, amount: i128) -> (ok: bool)
        ensures
            ok == (spec_fee(amount, self.fee_rate) is Ok ==> fits_i128(
                self.accumulated_fees + spec_fee(amount, self.fee_rate).unwrap(),
            )),
    {
        match math::calculate_fee(amount, self.fee_rate) {
            Ok(fee) => self.accumulated_fees.checked_add(fee).is_some(),
            Err(_) => true,
        }
    }

    /// Whether the net payout `amount - fee` of a withdrawal stays within
    /// `i128` (when the fee itself can be computed).
    pub fn net_in_range(&self, amount: i128) -> (ok: bool)
        ensures
            ok == (spec_fee(amount, self.fee_rate) is Ok ==> fits_i128(
                amount - spec_fee(amount, self.fee_rate).unwrap(),
            )),
    {
        match math::calculate_fee(amount, self.fee_rate) {
            Ok(fee) => amount.checked_sub(fee).is_some(),
            Err(_) => true,
        }
    }

    /// Collect the fee on a stream creation of `amount`: the returned fee is
    /// to be transferred from `payer` to the fee contract, and is added to
    /// the accumulated fees.
    pub fn collect_creation_fee(&mut self, payer: Address, amount: i128) -> (r: Result<
        i128,
        FeeError,
    >)
        requires
            spec_fee(amount, old(self).fee_rate) is Ok ==> fits_i128(
                old(self).accumulated_fees + spec_fee(amount, old(self).fee_rate).unwrap(),
            ),
        ensures
            r == spec_fee(amount, old(self).fee_rate),
            r is Ok ==> *final(self) == (FeeContract {
                accumulated_fees: (old(self).accumulated_fees + r.unwrap()) as i128,
                ..*old(self)
            }),
            r is Err ==> *final(self) == *old(self),
    {
        let fee = math::calculate_fee(amount, self.fee_rate)?;
        self.accumulated_fees = self.accumulated_fees + fee;
        Ok(fee)
    }

    /// Collect the fee on a withdrawal of `amount`: the fee is kept and
    /// accumulated, and the rest (`net`) is to be transferred to `recipient`.
    pub fn collect_withdrawal_fee(&mut self, recipient: Address, amount: i128) -> (r: Result<
        FeeSplit,
        FeeError,
    >)
        requires
            spec_fee(amount, old(self).fee_rate) is Ok ==> fits_i128(
                old(self).accumulated_fees + spec_fee(amount, old(self).fee_rate).unwrap(),
            ) && fits_i128(amount - spec_fee(amount, old(self).fee_rate).unwrap()),
        ensures
            match spec_fee(amount, old(self).fee_rate) {
                Ok(fee) => r == Ok::<FeeSplit, FeeError>(
                    FeeSplit { fee, net: (amount - fee) as i128 },
                ) && *final(self) == (FeeContract {
                    accumulated_fees: (old(self).accumulated_fees + fee) as i128,
                    ..*old(self)
                }),
                Err(e) => r == Err::<FeeSplit, FeeError>(e) && *final(self) == *old(self),
            },
    {
        let fee = math::calculate_fee(amount, self.fee_rate)?;
        self.accumulated_fees = self.accumulated_fees + fee;
        Ok(FeeSplit { fee, net: amount - fee })
    }

    /// Update the fee rate (admin only). Returns the previous rate.
    pub fn set_fee_rate(&mut self, admin: Address, new_rate: u32) -> (r: Result<u32, FeeError>)
        requires
            old(self).admin is Some,
        ensures
            admin != old(self).admin.unwrap() ==> r == Err::<u32, FeeError>(
                FeeError::Unauthorized,
            ) && *final(self) == *old(self),
            admin == old(self).admin.unwrap() ==> r == Ok::<u32, FeeError>(old(self).fee_rate)
                && *final(self) == (FeeContract { fee_rate: new_rate, ..*old(self) }),
    {
        if admin != self.admin.unwrap() {
            return Err(FeeError::Unauthorized);
        }
        let old_rate = self.fee_rate;
        self.fee_rate = new_rate;
        Ok(old_rate)
    }

    /// Withdraw the accumulated fees to the fee recipient (admin only): the
    /// whole accumulated amount is paid out and the accumulator reset.
    pub fn withdraw_fees(&mut self, admin: Address) -> (r: Result<FeePayout, FeeError>)
        requires
            old(self).wf(),
            old(self).admin is Some,
        ensures
            admin != old(self).admin.unwrap() ==> r == Err::<FeePayout, FeeError>(
                FeeError::Unauthorized,
            ) && *final(self) == *old(self),
            admin == old(self).admin.unwrap() ==> r == Ok::<FeePayout, FeeError>(
                FeePayout {
                    amount: old(self).accumulated_fees,
                    recipient: old(self).fee_recipient.unwrap(),
                },
            ) && *final(self) == (FeeContract { accumulated_fees: 0, ..*old(self) }),
    {
        if admin != self.admin.unwrap() {
            return Err(FeeError::Unauthorized);
        }
        let amount = self.accumulated_fees;
        let recipient = self.fee_recipient.unwrap();
        self.accumulated_fees = 0;
        Ok(FeePayout { amount, recipient })
    }
}

} // verus!
