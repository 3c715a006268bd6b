//! A stream split across several recipients by weight: the stored
//! configuration and the proportional share math.

pub mod math;

use std::collections::HashMap;

use vstd::prelude::*;

use crate::common::{Address, RecipientInfo};

verus! {

/// Internal configuration for a multi-recipient stream.
#[derive(Clone, Copy, Debug, PartialEq, Eq, Structural)]
pub struct MultiStreamConfig {
    pub sender: Address,
    pub asset: Address,
    pub total_amount: i128,
    pub duration: u32,
    pub flow_rate: i128,
    pub start_time: u64,
    pub last_update_time: u64,
}

/// The storage of a multistream contract: its configuration, the
/// recipients with their weights, the sum of the weights, and what each
/// recipient has withdrawn (all keyed by the recipient's identity).
pub struct MultiStreamContract {
    pub config: Option<MultiStreamConfig>,
    pub recipients: HashMap<u64, RecipientInfo>,
    pub total_weight: u32,
    pub withdrawn: HashMap<u64, i128>,
}

impl MultiStreamContract {
    /// A multistream contract with empty storage.
    pub fn new() -> (s: MultiStreamContract)
        ensures
            s.config is None,
            s.recipients@ == Map::<u64, RecipientInfo>::empty(),
            s.total_weight == 0,
            s.withdrawn@ == Map::<u64, i128>::empty(),
    {
        MultiStreamContract {
            config: None,
            recipients: HashMap::new(),
            total_weight: 0,
            withdrawn: HashMap::new(),
        }
    }

    /// The configuration (the host panics before calling this on an
    /// uninitialized contract).
    pub fn get_config(&self) -> (c: MultiStreamConfig)
        requires
            self.config is Some,
        ensures
            c == self.config.unwrap(),
    {
        self.config.unwrap()
    }

    pub fn set_config(&mut self, config: MultiStreamConfig)
        ensures
            final(self).config == Some(config),
            final(self).recipients@ == old(self).recipients@,
            final(self).total_weight == old(self).total_weight,
            final(self).withdrawn@ == old(self).withdrawn@,
    {
        self.config = Some(config);
    }

    /// The recipient entry for `recipient`, if any.
    pub fn get_recipient_info(&self, recipient: Address) -> (r: Option<RecipientInfo>)
        ensures
            r == (if self.recipients@.contains_key(recipient.id) {
                Some(self.recipients@[recipient.id])
            } else {
                None::<RecipientInfo>
            }),
    {
        broadcast use vstd::std_specs::hash::group_hash_axioms;

        match self.recipients.get(&recipient.id) {
            Some(info) => Some(*info),
            None => None,
        }
    }

    pub fn set_recipient_info(&mut self, recipient: Address, info: RecipientInfo)
        ensures
            final(self).recipients@ == old(self).recipients@.insert(recipient.id, info),
            final(self).config == old(self).config,
            final(self).total_weight == old(self).total_weight,
            final(self).withdrawn@ == old(self).withdrawn@,
    {
        broadcast use vstd::std_specs::hash::group_hash_axioms;

        self.recipients.insert(recipient.id, info);
    }

    pub fn remove_recipient_info(&mut self, recipient: Address)
        ensures
            final(self).recipients@ == old(self).recipients@.remove(recipient.id),
            final(self).config == old(self).config,
            final(self).total_weight == old(self).total_weight,
            final(self).withdrawn@ == old(self).withdrawn@,
    {
        broadcast use vstd::std_specs::hash::group_hash_axioms;

        self.recipients.remove(&recipient.id);
    }

    /// Sum of all recipient weights.
    pub fn get_total_weight(&self) -> (w: u32)
        ensures
            w == self.total_weight,
    {
        self.total_weight
    }

    pub fn set_total_weight(&mut self, weight: u32)
        ensures
            final(self).total_weight == weight,
            final(self).config == old(self).config,
            final(self).recipients@ == old(self).recipients@,
            final(self).withdrawn@ == old(self).withdrawn@,
    {
        self.total_weight = weight;
    }

    /// Amount already withdrawn by `recipient` (zero if none recorded).
    pub fn get_withdrawn(&self, recipient: Address) -> (a: i128)
        ensures
            a == (if self.withdrawn@.contains_key(recipient.id) {
                self.withdrawn@[recipient.id]
            } else {
                0
            }),
    {
        broadcast use vstd::std_specs::hash::group_hash_axioms;

        match self.withdrawn.get(&recipient.id) {
            Some(amount) => *amount,
            None => 0,
        }
    }

    pub fn set_withdrawn(&mut self, recipient: Address, amount: i128)
        ensures
            final(self).withdrawn@ == old(self).withdrawn@.insert(recipient.id, amount),
            final(self).config == old(self).config,
            final(self).recipients@ == old(self).recipients@,
            final(self).total_weight == old(self).total_weight,
    {
        broadcast use vstd::std_specs::hash::group_hash_axioms;

        self.withdrawn.insert(recipient.id, amount);
    }
}

} // verus!
