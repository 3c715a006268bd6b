//! The computable parts of deploying a stream contract: the deterministic
//! deployment salt and the interpretation of the `initialize` call's outcome.

use vstd::prelude::*;

use crate::common::{Address, StreamError};

verus! {

/// The `k`-th byte (0 = most significant) of the big-endian encoding of `x`.
pub open spec fn be_byte(x: u32, k: int) -> u8 {
    if k == 0 {
        (x / 0x100_0000) as u8
    } else if k == 1 {
        ((x / 0x1_0000) % 0x100) as u8
    } else if k == 2 {
        ((x / 0x100) % 0x100) as u8
    } else {
        (x % 0x100) as u8
    }
}

/// The deployment salt of stream `stream_id`: 32 bytes, all zero except the
/// last four, which hold the big-endian stream ID.
pub open spec fn spec_deploy_salt(stream_id: u32) -> Seq<u8> {
    Seq::new(32, |i: int| if i < 28 { 0u8 } else { be_byte(stream_id, i - 28) })
}

/// Build the deployment salt for `stream_id`.
pub fn deploy_salt(stream_id: u32) -> (salt: [u8; 32])
    ensures
        salt@ == spec_deploy_salt(stream_id),
{
    let mut salt = [0u8; 32];
    salt[28] = (stream_id / 0x100_0000) as u8;
    salt[29] = ((stream_id / 0x1_0000) % 0x100) as u8;
    salt[30] = ((stream_id / 0x100) % 0x100) as u8;
    salt[31] = (stream_id % 0x100) as u8;
    assert(salt@ =~= spec_deploy_salt(stream_id));
    salt
}

/// Distinct stream IDs get distinct salts, so two streams of one factory
/// never collide on a deployment address.
pub proof fn lemma_deploy_salt_injective(a: u32, b: u32)
    requires
        spec_deploy_salt(a) == spec_deploy_salt(b),
    ensures
        a == b,
{
    let sa = spec_deploy_salt(a);
    let sb = spec_deploy_salt(b);
    assert(sa[28] == sb[28] && sa[29] == sb[29] && sa[30] == sb[30] && sa[31] == sb[31]);
    assert(a == (a / 0x100_0000) * 0x100_0000 + ((a / 0x1_0000) % 0x100) * 0x1_0000 + ((a / 0x100)
        % 0x100) * 0x100 + a % 0x100) by (nonlinear_arith);
    assert(b == (b / 0x100_0000) * 0x100_0000 + ((b / 0x1_0000) % 0x100) * 0x1_0000 + ((b / 0x100)
        % 0x100) * 0x100 + b % 0x100) by (nonlinear_arith);
}

/// Outcome of invoking `initialize` on a freshly deployed stream contract:
/// it returned, its return value could not be decoded, it failed with a
/// stream contract error, or the host failed it for another reason.
#[derive(Clone, Copy, Debug, PartialEq, Eq, Structural)]
pub enum InitOutcome {
    Initialized,
    UndecodableReturn,
    ContractError(StreamError),
    HostError,
}

/// The result of deploying a stream at `stream_address` whose `initialize`
/// call ended with `outcome`: the address on success, the stream's own
/// error if it reported one, and `Unauthorized` for any other failure.
pub fn deploy_outcome(stream_address: Address, outcome: InitOutcome) -> (r: Result<
    Address,
    StreamError,
>)
    ensures
        r == match outcome {
            InitOutcome::Initialized => Ok(stream_address),
            InitOutcome::ContractError(e) => Err(e),
            _ => Err(StreamError::Unauthorized),
        },
{
    match outcome {
        InitOutcome::Initialized => Ok(stream_address),
        InitOutcome::UndecodableReturn | InitOutcome::HostError => Err(StreamError::Unauthorized),
        InitOutcome::ContractError(e) => Err(e),
    }
}

} // verus!
