//! Trickle: continuous payment streams, vesting, fees and their registry,
//! as verified state machines.

pub mod common;
pub mod stream;
pub mod vesting;
pub mod fees;
pub mod multistream;
pub mod factory;
pub mod stream_nft;
