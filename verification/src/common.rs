//! Shared types used by every Trickle contract: account identities,
//! stream and vesting metadata, and the error enums of each contract.

use vstd::prelude::*;

verus! {

/// An account or contract identity.
///
/// The protocol logic only ever compares identities for equality, so an
/// identity is held as an opaque number that the host side assigns.
#[derive(Clone, Copy, Debug, PartialEq, Eq, Hash, Structural)]
pub struct Address {
    pub id: u64,
}

impl Address {
    pub fn new(id: u64) -> (a: Address)
        ensures
            a.id == id,
    {
        Address { id }
    }
}

// ─── Stream types ────────────────────────────────────────────────────────────

/// Status of a payment stream through its lifecycle.
#[derive(Clone, Copy, Debug, PartialEq, Eq, Structural)]
pub enum StreamStatus {
    Active,
    Paused,
    Cancelled,
    Completed,
}

/// Public-facing stream metadata returned by read-only queries.
#[derive(Clone, Copy, Debug, PartialEq, Eq, Structural)]
pub struct StreamInfo {
    pub sender: Address,
    pub recipient: Address,
    pub asset: Address,
    pub flow_rate: i128,
    pub total_amount: i128,
    pub withdrawn_amount: i128,
    pub start_time: u64,
    pub last_update_time: u64,
    pub status: StreamStatus,
}

/// Errors of the stream and factory contracts.
#[derive(Clone, Copy, Debug, PartialEq, Eq, Structural)]
pub enum StreamError {
    NotInitialized,
    AlreadyInitialized,
    Unauthorized,
    StreamNotFound,
    InsufficientBalance,
    StreamNotActive,
    StreamAlreadyCompleted,
    InvalidFlowRate,
    ZeroAmount,
    NothingToWithdraw,
    StreamNotPaused,
}

// ─── Multistream types ───────────────────────────────────────────────────────

/// A recipient in a multi-recipient stream with their proportional weight.
#[derive(Clone, Copy, Debug, PartialEq, Eq, Structural)]
pub struct RecipientInfo {
    pub address: Address,
    pub weight: u32,
}

/// Errors of the multistream contract.
#[derive(Clone, Copy, Debug, PartialEq, Eq, Structural)]
pub enum MultistreamError {
    StreamNotFound,
    Unauthorized,
    NoRecipients,
    InvalidWeight,
    StreamNotActive,
    NothingToWithdraw,
}

// ─── Vesting types ───────────────────────────────────────────────────────────

/// Status of a vesting schedule.
#[derive(Clone, Copy, Debug, PartialEq, Eq, Structural)]
pub enum VestingStatus {
    NotStarted,
    Vesting,
    Completed,
    Revoked,
}

/// Public-facing vesting schedule metadata.
#[derive(Clone, Copy, Debug, PartialEq, Eq, Structural)]
pub struct VestingInfo {
    pub beneficiary: Address,
    pub asset: Address,
    pub total_amount: i128,
    pub vested_amount: i128,
    pub start_time: u64,
    pub cliff_duration: u64,
    pub vesting_duration: u64,
    pub status: VestingStatus,
}

/// Errors of the vesting contract.
#[derive(Clone, Copy, Debug, PartialEq, Eq, Structural)]
pub enum VestingError {
    VestingNotFound,
    Unauthorized,
    NothingToVest,
    VestingAlreadyCompleted,
    CliffNotReached,
}

// ─── Fee and NFT errors ──────────────────────────────────────────────────────

/// Errors of the fee contract.
#[derive(Clone, Copy, Debug, PartialEq, Eq, Structural)]
pub enum FeeError {
    NotInitialized,
    FeeNotConfigured,
    FeeCalculationOverflow,
    InsufficientFeeBalance,
    Unauthorized,
}

/// Errors of the stream NFT contract.
#[derive(Clone, Copy, Debug, PartialEq, Eq, Structural)]
pub enum StreamNftError {
    StreamNotFound,
    Unauthorized,
    NotOwner,
    NftAlreadyMinted,
}

// ─── Integer helpers ─────────────────────────────────────────────────────────

/// Integer division rounding toward zero, as Rust's `/` does on signed
/// integers (the divisor is positive wherever this is used).
pub open spec fn trunc_div(a: int, b: int) -> int {
    if a >= 0 {
        a / b
    } else {
        -((-a) / b)
    }
}

/// Whether a mathematical integer fits in an `i128`.
pub open spec fn fits_i128(x: int) -> bool {
    i128::MIN <= x <= i128::MAX
}

pub open spec fn min_int(a: int, b: int) -> int {
    if a <= b {
        a
    } else {
        b
    }
}

pub open spec fn max_int(a: int, b: int) -> int {
    if a >= b {
        a
    } else {
        b
    }
}

} // verus!
