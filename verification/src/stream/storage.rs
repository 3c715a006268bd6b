//! The stored state of one stream and its public view.

use vstd::prelude::*;

use crate::common::{Address, StreamInfo, StreamStatus};

use super::math::{derive_status, spec_derive_status};

verus! {

/// Internal mutable state for a single stream.
#[derive(Clone, Copy, Debug, PartialEq, Eq, Structural)]
pub struct StreamConfig {
    /// The factory contract that deployed this stream.
    pub factory: Address,
    /// Address that funded the stream and controls pause/cancel.
    pub sender: Address,
    /// Address that can withdraw accrued funds at any time.
    pub recipient: Address,
    /// Contract address of the token being streamed.
    pub asset: Address,
    /// Token units streamed per second.
    pub flow_rate: i128,
    /// Total tokens deposited into escrow for this stream.
    pub total_amount: i128,
    /// Total tokens the recipient has withdrawn so far.
    pub withdrawn_amount: i128,
    /// Ledger timestamp when the stream started flowing.
    pub start_time: u64,
    /// Accrual checkpoint: accrual counts from this time on.
    pub last_update_time: u64,
    /// Stored lifecycle status (`Completed` is only ever derived).
    pub status: StreamStatus,
    /// When the stream was paused, while it is paused.
    pub paused_at: Option<u64>,
}

impl StreamConfig {
    /// The state every stream operation keeps: exactly a paused stream
    /// records a pause time, `Completed` is never stored, a cancelled stream
    /// counts as fully paid out, and the amount withdrawn is non-negative
    /// and, once positive, within the total.
    pub open spec fn wf(self) -> bool {
        &&& (self.status == StreamStatus::Paused) == (self.paused_at is Some)
        &&& self.status != StreamStatus::Completed
        &&& self.status == StreamStatus::Cancelled ==> self.withdrawn_amount == self.total_amount
        &&& 0 <= self.withdrawn_amount
        &&& (self.withdrawn_amount == 0 || self.withdrawn_amount <= self.total_amount)
    }
}

/// The public view of a stream configuration.
pub open spec fn spec_config_to_info(config: StreamConfig) -> StreamInfo {
    StreamInfo {
        sender: config.sender,
        recipient: config.recipient,
        asset: config.asset,
        flow_rate: config.flow_rate,
        total_amount: config.total_amount,
        withdrawn_amount: config.withdrawn_amount,
        start_time: config.start_time,
        last_update_time: config.last_update_time,
        status: spec_derive_status(config),
    }
}

/// Convert internal StreamConfig to the public StreamInfo type.
pub fn config_to_info(config: &StreamConfig) -> (info: StreamInfo)
    ensures
        info == spec_config_to_info(*config),
{
    StreamInfo {
        sender: config.sender,
        recipient: config.recipient,
        asset: config.asset,
        flow_rate: config.flow_rate,
        total_amount: config.total_amount,
        withdrawn_amount: config.withdrawn_amount,
        start_time: config.start_time,
        last_update_time: config.last_update_time,
        status: derive_status(config),
    }
}

} // verus!
