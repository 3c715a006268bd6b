//! The stream NFT contract: records which stream contract its token wraps.

use vstd::prelude::*;

use crate::common::{Address, StreamNftError};

verus! {

/// The storage of a stream NFT contract.
#[derive(Clone, Copy, Debug, PartialEq, Eq, Structural)]
pub struct StreamNftContract {
    /// The deployer (stream contract or factory).
    pub admin: Option<Address>,
    /// The stream contract whose receiver role the token represents.
    pub stream_contract: Option<Address>,
    /// The current owner of the token, once minted.
    pub owner: Option<Address>,
}

impl StreamNftContract {
    /// A stream NFT contract with empty storage.
    pub fn new() -> (s: StreamNftContract)
        ensures
            s == (StreamNftContract { admin: None, stream_contract: None, owner: None }),
    {
        StreamNftContract { admin: None, stream_contract: None, owner: None }
    }

    /// Record the admin and the stream contract this NFT wraps.
    pub fn initialize(&mut self, admin: Address, stream_contract: Address) -> (r: Result<
        (),
        StreamNftError,
    >)
        ensures
            r is Ok,
            *final(self) == (StreamNftContract {
                admin: Some(admin),
                stream_contract: Some(stream_contract),
                ..*old(self)
            }),
    {
        self.admin = Some(admin);
        self.stream_contract = Some(stream_contract);
        Ok(())
    }

    /// Whether a stream contract has been recorded (`initialize` has run).
    pub fn has_stream_contract(&self) -> (b: bool)
        ensures
            b == (self.stream_contract is Some),
    {
        self.stream_contract.is_some()
    }

    /// Read-only: the stream contract this NFT wraps (the host panics before
    /// calling this on an uninitialized contract).
    pub fn get_stream_contract(&self) -> (r: Result<Address, StreamNftError>)
        requires
            self.stream_contract is Some,
        ensures
            r == Ok::<Address, StreamNftError>(self.stream_contract.unwrap()),
    {
        Ok(self.stream_contract.unwrap())
    }

    pub fn get_admin(&self) -> (a: Address)
        requires
            self.admin is Some,
        ensures
            a == self.admin.unwrap(),
    {
        self.admin.unwrap()
    }

    pub fn get_owner(&self) -> (o: Option<Address>)
        ensures
            o == self.owner,
    {
        self.owner
    }

    pub fn set_owner(&mut self, owner: Address)
        ensures
            *final(self) == (StreamNftContract { owner: Some(owner), ..*old(self) }),
    {
        self.owner = Some(owner);
    }
}

} // verus!
