//! The per-stream escrow contract.
//!
//! A stream holds escrowed tokens for one recipient and accrues them at a
//! fixed per-second rate. The contract state is modelled by
//! [`StreamContract`]; every entry point takes the current ledger time as an
//! argument and returns, besides its result, exactly what the host has to
//! move: the token amounts to transfer out of escrow.

pub mod laws;
pub mod math;
pub mod storage;

use vstd::prelude::*;

use crate::common::{fits_i128, Address, StreamError, StreamInfo, StreamStatus};

use self::math::{
    accrual_fits, calculate_claimable, calculate_remaining, derive_status, effective_time,
    spec_claimable, spec_derive_status, spec_effective_time, spec_remaining,
};
use self::storage::{config_to_info, spec_config_to_info, StreamConfig};

verus! {

/// `a - b`, or zero when `b > a`.
pub open spec fn sat_sub(a: u64, b: u64) -> u64 {
    if a >= b {
        (a - b) as u64
    } else {
        0
    }
}

/// The token movements of a cancellation: the recipient's earned amount and
/// the unstreamed remainder returned to the sender.
#[derive(Clone, Copy, Debug, PartialEq, Eq, Structural)]
pub struct CancelSettlement {
    pub to_recipient: i128,
    pub refund: i128,
}

// ─── Transitions ─────────────────────────────────────────────────────────────

/// The configuration a freshly initialized stream starts with.
pub open spec fn initial_config(
    factory: Address,
    sender: Address,
    recipient: Address,
    asset: Address,
    flow_rate: i128,
    total_amount: i128,
    start_time: u64,
) -> StreamConfig {
    StreamConfig {
        factory,
        sender,
        recipient,
        asset,
        flow_rate,
        total_amount,
        withdrawn_amount: 0,
        start_time,
        last_update_time: start_time,
        status: StreamStatus::Active,
        paused_at: None,
    }
}

/// Outcome of a withdrawal request by `recipient` at `now`.
pub open spec fn withdraw_result(c: StreamConfig, recipient: Address, now: u64) -> Result<
    i128,
    StreamError,
> {
    if recipient != c.recipient {
        Err(StreamError::Unauthorized)
    } else if c.status == StreamStatus::Cancelled {
        Err(StreamError::StreamNotActive)
    } else if spec_claimable(c, now) <= 0 {
        Err(StreamError::NothingToWithdraw)
    } else {
        Ok(spec_claimable(c, now) as i128)
    }
}

/// State after a successful withdrawal at `now`: the claimable amount is
/// added to the withdrawn total and the checkpoint moves to the effective time.
pub open spec fn after_withdraw(c: StreamConfig, now: u64) -> StreamConfig {
    StreamConfig {
        withdrawn_amount: (c.withdrawn_amount + spec_claimable(c, now)) as i128,
        last_update_time: spec_effective_time(c, now),
        ..c
    }
}

/// Outcome of a pause request by `sender`.
pub open spec fn pause_result(c: StreamConfig, sender: Address) -> Result<(), StreamError> {
    if sender != c.sender {
        Err(StreamError::Unauthorized)
    } else if spec_derive_status(c) != StreamStatus::Active {
        Err(StreamError::StreamNotActive)
    } else {
        Ok(())
    }
}

/// State after pausing at `now`: the checkpoint stays, the pause time is recorded.
pub open spec fn after_pause(c: StreamConfig, now: u64) -> StreamConfig {
    StreamConfig { status: StreamStatus::Paused, paused_at: Some(now), ..c }
}

/// Outcome of a resume request by `sender`.
pub open spec fn resume_result(c: StreamConfig, sender: Address) -> Result<(), StreamError> {
    if sender != c.sender {
        Err(StreamError::Unauthorized)
    } else if c.status != StreamStatus::Paused {
        Err(StreamError::StreamNotPaused)
    } else {
        Ok(())
    }
}

/// State after resuming at `now`: the checkpoint is moved so that the time
/// accrued before the pause is kept and the paused window is excluded.
pub open spec fn after_resume(c: StreamConfig, now: u64) -> StreamConfig {
    let excluded = sat_sub(c.paused_at.unwrap(), c.last_update_time);
    StreamConfig {
        last_update_time: sat_sub(now, excluded),
        status: StreamStatus::Active,
        paused_at: None,
        ..c
    }
}

/// Outcome of a cancellation request by `sender` at `now`.
pub open spec fn cancel_result(c: StreamConfig, sender: Address, now: u64) -> Result<
    CancelSettlement,
    StreamError,
> {
    if sender != c.sender {
        Err(StreamError::Unauthorized)
    } else if c.status == StreamStatus::Cancelled || c.withdrawn_amount >= c.total_amount {
        Err(StreamError::StreamNotActive)
    } else {
        Ok(
            CancelSettlement {
                to_recipient: spec_claimable(c, now) as i128,
                refund: (spec_remaining(c) - spec_claimable(c, now)) as i128,
            },
        )
    }
}

/// State after a cancellation at `now`: the whole escrow counts as paid out.
pub open spec fn after_cancel(c: StreamConfig, now: u64) -> StreamConfig {
    StreamConfig {
        status: StreamStatus::Cancelled,
        withdrawn_amount: c.total_amount,
        last_update_time: now,
        paused_at: None,
        ..c
    }
}

/// The settlement of a cancellation can be computed in `i128`.
pub open spec fn settlement_fits(c: StreamConfig, now: u64) -> bool {
    accrual_fits(c, now) && fits_i128(spec_remaining(c) - spec_claimable(c, now))
}

// ─── Contract ────────────────────────────────────────────────────────────────

/// The storage of one stream contract instance.
#[derive(Clone, Copy, Debug, PartialEq, Eq, Structural)]
pub struct StreamContract {
    /// The stream configuration; `None` until `initialize` has run.
    pub config: Option<StreamConfig>,
    /// The stream-nft contract allowed to call `update_recipient`.
    pub nft_contract: Option<Address>,
}

impl StreamContract {
    /// Every reachable state: a stored configuration is well formed.
    pub open spec fn wf(self) -> bool {
        self.config is Some ==> self.config.unwrap().wf()
    }

    pub open spec fn initialized(self) -> bool {
        self.config is Some
    }

    /// The stored configuration of an initialized stream.
    pub open spec fn cfg(self) -> StreamConfig {
        self.config.unwrap()
    }

    /// An uninitialized stream contract (empty storage).
    pub fn new() -> (s: StreamContract)
        ensures
            s.config is None,
            s.nft_contract is None,
            s.wf(),
    {
        StreamContract { config: None, nft_contract: None }
    }

    /// Whether this stream contract has been initialized.
    pub fn is_initialized(&self) -> (b: bool)
        ensures
            b == self.initialized(),
    {
        self.config.is_some()
    }

    /// The stream configuration (the host panics before calling this on an
    /// uninitialized contract).
    pub fn get_config(&self) -> (c: StreamConfig)
        requires
            self.initialized(),
        ensures
            c == self.cfg(),
    {
        self.config.unwrap()
    }

    /// The authorized NFT contract address, if one has been set.
    pub fn get_nft_contract(&self) -> (a: Option<Address>)
        ensures
            a == self.nft_contract,
    {
        self.nft_contract
    }

    /// Store the authorized NFT contract address.
    pub fn set_nft_contract(&mut self, address: Address)
        ensures
            final(self).nft_contract == Some(address),
            final(self).config == old(self).config,
    {
        self.nft_contract = Some(address);
    }

    /// Initialize this stream. Fails with `AlreadyInitialized` on a second call.
    pub fn initialize(
        &mut self,
        factory: Address,
        sender: Address,
        recipient: Address,
        asset: Address,
        flow_rate: i128,
        total_amount: i128,
        start_time: u64,
    ) -> (r: Result<(), StreamError>)
        requires
            old(self).wf(),
        ensures
            final(self).wf(),
            old(self).initialized() ==> r == Err::<(), StreamError>(
                StreamError::AlreadyInitialized,
            ) && *final(self) == *old(self),
            !old(self).initialized() ==> r is Ok && final(self).config == Some(
                initial_config(factory, sender, recipient, asset, flow_rate, total_amount, start_time),
            ) && final(self).nft_contract == old(self).nft_contract,
    {
        if self.config.is_some() {
            return Err(StreamError::AlreadyInitialized);
        }
        self.config = Some(
            StreamConfig {
                factory,
                sender,
                recipient,
                asset,
                flow_rate,
                total_amount,
                withdrawn_amount: 0,
                start_time,
                last_update_time: start_time,
                status: StreamStatus::Active,
                paused_at: None,
            },
        );
        Ok(())
    }

    /// Withdraw the accrued funds. Only the recipient may withdraw, and not
    /// from a cancelled stream. On success the returned amount is to be
    /// transferred from escrow to the recipient.
    pub fn withdraw(&mut self, recipient: Address, current_time: u64) -> (r: Result<
        i128,
        StreamError,
    >)
        requires
            old(self).wf(),
            old(self).initialized(),
            recipient == old(self).cfg().recipient && old(self).cfg().status
                != StreamStatus::Cancelled ==> accrual_fits(old(self).cfg(), current_time),
        ensures
            final(self).wf(),
            final(self).initialized(),
            final(self).nft_contract == old(self).nft_contract,
            r == withdraw_result(old(self).cfg(), recipient, current_time),
            r is Ok ==> final(self).cfg() == after_withdraw(old(self).cfg(), current_time),
            r is Err ==> *final(self) == *old(self),
    {
        let mut config = self.config.unwrap();
        if recipient != config.recipient {
            return Err(StreamError::Unauthorized);
        }
        if config.status == StreamStatus::Cancelled {
            return Err(StreamError::StreamNotActive);
        }
        let claimable = calculate_claimable(&config, current_time);
        if claimable <= 0 {
            return Err(StreamError::NothingToWithdraw);
        }
        config.withdrawn_amount = config.withdrawn_amount + claimable;
        config.last_update_time = effective_time(&config, current_time);
        self.config = Some(config);
        Ok(claimable)
    }

    /// Pause an active stream. Only the sender may pause; accrual freezes at
    /// the pause time.
    pub fn pause(&mut self, sender: Address, current_time: u64) -> (r: Result<(), StreamError>)
        requires
            old(self).wf(),
            old(self).initialized(),
        ensures
            final(self).wf(),
            final(self).initialized(),
            final(self).nft_contract == old(self).nft_contract,
            r == pause_result(old(self).cfg(), sender),
            r is Ok ==> final(self).cfg() == after_pause(old(self).cfg(), current_time),
            r is Err ==> *final(self) == *old(self),
    {
        let mut config = self.config.unwrap();
        if sender != config.sender {
            return Err(StreamError::Unauthorized);
        }
        if derive_status(&config) != StreamStatus::Active {
            return Err(StreamError::StreamNotActive);
        }
        config.status = StreamStatus::Paused;
        config.paused_at = Some(current_time);
        self.config = Some(config);
        Ok(())
    }

    /// Resume a paused stream. Only the sender may resume; the paused window
    /// is excluded from accrual and the pre-pause accrual is kept.
    pub fn resume(&mut self, sender: Address, current_time: u64) -> (r: Result<(), StreamError>)
        requires
            old(self).wf(),
            old(self).initialized(),
        ensures
            final(self).wf(),
            final(self).initialized(),
            final(self).nft_contract == old(self).nft_contract,
            r == resume_result(old(self).cfg(), sender),
            r is Ok ==> final(self).cfg() == after_resume(old(self).cfg(), current_time),
            r is Err ==> *final(self) == *old(self),
    {
        let mut config = self.config.unwrap();
        if sender != config.sender {
            return Err(StreamError::Unauthorized);
        }
        if config.status != StreamStatus::Paused {
            return Err(StreamError::StreamNotPaused);
        }
        let paused_at = config.paused_at.unwrap();
        let excluded = paused_at.saturating_sub(config.last_update_time);
        config.last_update_time = current_time.saturating_sub(excluded);
        config.status = StreamStatus::Active;
        config.paused_at = None;
        self.config = Some(config);
        Ok(())
    }

    /// Cancel an active or paused stream. Only the sender may cancel. The
    /// accrued amount goes to the recipient and the unstreamed remainder is
    /// refunded to the sender; the stream then counts as fully paid out.
    pub fn cancel(&mut self, sender: Address, current_time: u64) -> (r: Result<
        CancelSettlement,
        StreamError,
    >)
        requires
            old(self).wf(),
            old(self).initialized(),
            sender == old(self).cfg().sender && old(self).cfg().status != StreamStatus::Cancelled
                && old(self).cfg().withdrawn_amount < old(self).cfg().total_amount
                ==> settlement_fits(old(self).cfg(), current_time),
        ensures
            final(self).wf(),
            final(self).initialized(),
            final(self).nft_contract == old(self).nft_contract,
            r == cancel_result(old(self).cfg(), sender, current_time),
            r is Ok ==> final(self).cfg() == after_cancel(old(self).cfg(), current_time),
            r is Err ==> *final(self) == *old(self),
    {
        let mut config = self.config.unwrap();
        if sender != config.sender {
            return Err(StreamError::Unauthorized);
        }
        if config.status == StreamStatus::Cancelled || config.withdrawn_amount
            >= config.total_amount {
            return Err(StreamError::StreamNotActive);
        }
        let claimable = calculate_claimable(&config, current_time);
        let remaining = calculate_remaining(&config);
        let refund = remaining - claimable;
        config.status = StreamStatus::Cancelled;
        config.withdrawn_amount = config.total_amount;
        config.last_update_time = current_time;
        config.paused_at = None;
        self.config = Some(config);
        Ok(CancelSettlement { to_recipient: claimable, refund })
    }

    /// Read-only: the amount the recipient could withdraw right now.
    pub fn get_balance(&self, current_time: u64) -> (r: Result<i128, StreamError>)
        requires
            self.initialized(),
            accrual_fits(self.cfg(), current_time),
        ensures
            r == Ok::<i128, StreamError>(spec_claimable(self.cfg(), current_time) as i128),
    {
        let config = self.config.unwrap();
        Ok(calculate_claimable(&config, current_time))
    }

    /// Read-only: the full stream metadata.
    pub fn get_info(&self) -> (r: Result<StreamInfo, StreamError>)
        requires
            self.initialized(),
        ensures
            r == Ok::<StreamInfo, StreamError>(spec_config_to_info(self.cfg())),
    {
        let config = self.config.unwrap();
        Ok(config_to_info(&config))
    }

    /// The address whose authorization `update_recipient` needs: the stored
    /// NFT contract, or `Unauthorized` when none is set.
    pub fn update_recipient_authority(&self) -> (r: Result<Address, StreamError>)
        ensures
            self.nft_contract is None ==> r == Err::<Address, StreamError>(
                StreamError::Unauthorized,
            ),
            self.nft_contract is Some ==> r == Ok::<Address, StreamError>(
                self.nft_contract.unwrap(),
            ),
    {
        match self.nft_contract {
            Some(nft) => Ok(nft),
            None => Err(StreamError::Unauthorized),
        }
    }

    /// Transfer receivership to `new_recipient` (called on behalf of the NFT
    /// contract). Returns the previous recipient.
    pub fn update_recipient(&mut self, new_recipient: Address) -> (r: Result<
        Address,
        StreamError,
    >)
        requires
            old(self).wf(),
            old(self).nft_contract is Some ==> old(self).initialized(),
        ensures
            final(self).wf(),
            final(self).nft_contract == old(self).nft_contract,
            old(self).nft_contract is None ==> r == Err::<Address, StreamError>(
                StreamError::Unauthorized,
            ) && *final(self) == *old(self),
            old(self).nft_contract is Some ==> r == Ok::<Address, StreamError>(
                old(self).cfg().recipient,
            ) && final(self).config == Some(
                StreamConfig { recipient: new_recipient, ..old(self).cfg() },
            ),
    {
        if self.nft_contract.is_none() {
            return Err(StreamError::Unauthorized);
        }
        let mut config = self.config.unwrap();
        let old_recipient = config.recipient;
        config.recipient = new_recipient;
        self.config = Some(config);
        Ok(old_recipient)
    }
}

/// Whether a cancellation's settlement can be computed in `i128` for this
/// configuration at this time.
pub fn settlement_in_range(config: &StreamConfig, current_time: u64) -> (ok: bool)
    ensures
        ok == settlement_fits(*config, current_time),
{
    if !math::accrual_in_range(config, current_time) {
        return false;
    }
    let claimable = calculate_claimable(config, current_time);
    let remaining = config.total_amount - config.withdrawn_amount;
    remaining.checked_sub(claimable).is_some()
}

} // verus!
