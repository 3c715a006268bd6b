//! The factory: validates stream requests, plans the deployment of each
//! per-stream contract, and keeps a registry of all streams indexed by
//! sender and by recipient.
//!
//! Creating a stream is a two-step exchange with the host:
//! [`FactoryContract::create_stream`] validates the request and returns a
//! [`StreamPlan`] (ID, deployment salt, initialization data); the host
//! deploys and initializes the stream contract and moves the escrow, and
//! then records the stream with [`FactoryContract::register_stream`].

pub mod deploy;
pub mod laws;

use std::collections::HashMap;

use vstd::prelude::*;

use crate::common::{trunc_div, Address, StreamError, StreamInfo, StreamStatus};

use self::deploy::{deploy_salt, spec_deploy_salt};

verus! {

broadcast use vstd::std_specs::hash::group_hash_axioms;

/// Everything the host needs to deploy and record a new stream.
#[derive(Clone, Copy, Debug)]
pub struct StreamPlan {
    /// The new stream's ID in the registry.
    pub stream_id: u32,
    /// The salt of the stream contract's deterministic deployment address.
    pub salt: [u8; 32],
    /// The code the stream contract is deployed from.
    pub wasm_hash: [u8; 32],
    /// The stream's metadata (also the arguments of its `initialize`).
    pub info: StreamInfo,
}

/// The party of a stream an index is kept for.
pub open spec fn party(info: StreamInfo, by_sender: bool) -> Address {
    if by_sender {
        info.sender
    } else {
        info.recipient
    }
}

/// The IDs below `n` whose stream has `who` as its sender (or recipient),
/// in increasing order: what the corresponding index must list.
pub open spec fn indexed_ids(infos: Map<u32, StreamInfo>, n: nat, by_sender: bool, who: u64) -> Seq<
    u32,
>
    decreases n,
{
    if n == 0 {
        Seq::empty()
    } else {
        let prev = indexed_ids(infos, (n - 1) as nat, by_sender, who);
        if party(infos[(n - 1) as u32], by_sender).id == who {
            prev.push((n - 1) as u32)
        } else {
            prev
        }
    }
}

/// An index lists, for every party, exactly the IDs of that party's streams.
pub open spec fn index_matches(
    index: Map<u64, Vec<u32>>,
    infos: Map<u32, StreamInfo>,
    n: nat,
    by_sender: bool,
) -> bool {
    forall|who: u64|
        #![trigger index.contains_key(who)]
        #![trigger indexed_ids(infos, n, by_sender, who)]
        (index.contains_key(who) ==> index[who]@ == indexed_ids(infos, n, by_sender, who)) && (
        !index.contains_key(who) ==> indexed_ids(infos, n, by_sender, who) == Seq::<u32>::empty())
}

/// The metadata a new stream is registered with.
pub open spec fn new_stream_info(
    sender: Address,
    recipient: Address,
    asset: Address,
    amount: i128,
    duration: u32,
    now: u64,
) -> StreamInfo {
    StreamInfo {
        sender,
        recipient,
        asset,
        flow_rate: trunc_div(amount as int, duration as int) as i128,
        total_amount: amount,
        withdrawn_amount: 0,
        start_time: now,
        last_update_time: now,
        status: StreamStatus::Active,
    }
}

/// The IDs listed for `who` in an index (none when the index has no entry).
pub open spec fn listed(index: Map<u64, Vec<u32>>, who: u64) -> Seq<u32> {
    if index.contains_key(who) {
        index[who]@
    } else {
        Seq::empty()
    }
}

/// The storage of the factory contract.
pub struct FactoryContract {
    /// The address that controls factory settings.
    pub admin: Option<Address>,
    /// The code hash stream contracts are deployed from.
    pub stream_wasm_hash: Option<[u8; 32]>,
    /// The next stream ID.
    pub stream_count: u32,
    /// Cached stream metadata, keyed by stream ID.
    pub stream_infos: HashMap<u32, StreamInfo>,
    /// Stream IDs by sender address.
    pub streams_by_sender: HashMap<u64, Vec<u32>>,
    /// Stream IDs by recipient address.
    pub streams_by_recipient: HashMap<u64, Vec<u32>>,
}

impl FactoryContract {
    /// The registry is consistent: exactly the IDs below the stream count
    /// are registered, and both indexes list exactly each party's streams
    /// in creation order.
    pub open spec fn wf(&self) -> bool {
        &&& forall|id: u32| #[trigger]
            self.stream_infos@.contains_key(id) <==> id < self.stream_count
        &&& index_matches(self.streams_by_sender@, self.stream_infos@, self.stream_count as nat, true)
        &&& index_matches(
            self.streams_by_recipient@,
            self.stream_infos@,
            self.stream_count as nat,
            false,
        )
    }

    /// An uninitialized factory with an empty registry.
    pub fn new() -> (s: FactoryContract)
        ensures
            s.admin is None,
            s.stream_wasm_hash is None,
            s.stream_count == 0,
            s.stream_infos@ == Map::<u32, StreamInfo>::empty(),
            s.streams_by_sender@ == Map::<u64, Vec<u32>>::empty(),
            s.streams_by_recipient@ == Map::<u64, Vec<u32>>::empty(),
            s.wf(),
    {
        FactoryContract {
            admin: None,
            stream_wasm_hash: None,
            stream_count: 0,
            stream_infos: HashMap::new(),
            streams_by_sender: HashMap::new(),
            streams_by_recipient: HashMap::new(),
        }
    }

    /// Set the admin and the stream code hash, and reset the stream counter.
    /// On a factory with an empty registry this yields a consistent registry.
    pub fn initialize(&mut self, admin: Address, stream_wasm_hash: [u8; 32])
        ensures
            final(self).admin == Some(admin),
            final(self).stream_wasm_hash == Some(stream_wasm_hash),
            final(self).stream_count == 0,
            final(self).stream_infos@ == old(self).stream_infos@,
            final(self).streams_by_sender@ == old(self).streams_by_sender@,
            final(self).streams_by_recipient@ == old(self).streams_by_recipient@,
            old(self).stream_infos@ == Map::<u32, StreamInfo>::empty()
                && old(self).streams_by_sender@ == Map::<u64, Vec<u32>>::empty()
                && old(self).streams_by_recipient@ == Map::<u64, Vec<u32>>::empty()
                ==> final(self).wf(),
    {
        self.admin = Some(admin);
        self.stream_wasm_hash = Some(stream_wasm_hash);
        self.stream_count = 0;
    }

    pub fn get_admin(&self) -> (a: Address)
        requires
            self.admin is Some,
        ensures
            a == self.admin.unwrap(),
    {
        self.admin.unwrap()
    }

    pub fn get_stream_wasm_hash(&self) -> (h: [u8; 32])
        requires
            self.stream_wasm_hash is Some,
        ensures
            h == self.stream_wasm_hash.unwrap(),
    {
        self.stream_wasm_hash.unwrap()
    }

    pub fn get_stream_count(&self) -> (n: u32)
        ensures
            n == self.stream_count,
    {
        self.stream_count
    }

    /// Validate a stream request and plan its deployment: the amount must
    /// be positive (`ZeroAmount`), the duration non-zero (`InvalidFlowRate`),
    /// and the sender must not stream to itself (`Unauthorized`); the stream
    /// gets the next ID, a flow rate of `amount / duration`, and starts at `now`.
    pub fn create_stream(
        &self,
        sender: Address,
        recipient: Address,
        asset: Address,
        amount: i128,
        duration: u32,
        now: u64,
    ) -> (r: Result<StreamPlan, StreamError>)
        requires
            amount > 0 && duration > 0 && sender != recipient ==> self.stream_wasm_hash is Some,
        ensures
            amount <= 0 ==> r == Err::<StreamPlan, StreamError>(StreamError::ZeroAmount),
            amount > 0 && duration == 0 ==> r == Err::<StreamPlan, StreamError>(
                StreamError::InvalidFlowRate,
            ),
            amount > 0 && duration > 0 && sender == recipient ==> r == Err::<
                StreamPlan,
                StreamError,
            >(StreamError::Unauthorized),
            r is Ok <==> (amount > 0 && duration > 0 && sender != recipient),
            r is Ok ==> r.unwrap().stream_id == self.stream_count
                && r.unwrap().salt@ == spec_deploy_salt(self.stream_count) && r.unwrap().wasm_hash
                == self.stream_wasm_hash.unwrap() && r.unwrap().info == new_stream_info(
                sender,
                recipient,
                asset,
                amount,
                duration,
                now,
            ),
    {
        if amount <= 0 {
            return Err(StreamError::ZeroAmount);
        }
        if duration == 0 {
            return Err(StreamError::InvalidFlowRate);
        }
        if sender == recipient {
            return Err(StreamError::Unauthorized);
        }
        let stream_id = self.stream_count;
        let wasm_hash = self.stream_wasm_hash.unwrap();
        let flow_rate = amount / (duration as i128);
        let info = StreamInfo {
            sender,
            recipient,
            asset,
            flow_rate,
            total_amount: amount,
            withdrawn_amount: 0,
            start_time: now,
            last_update_time: now,
            status: StreamStatus::Active,
        };
        Ok(StreamPlan { stream_id, salt: deploy_salt(stream_id), wasm_hash, info })
    }

    /// Record a deployed stream: cache its metadata under the next ID, list
    /// it for its sender and its recipient, and advance the counter.
    pub fn register_stream(&mut self, plan: StreamPlan)
        requires
            plan.stream_id == old(self).stream_count,
            old(self).stream_count < u32::MAX,
        ensures
            old(self).wf() ==> final(self).wf(),
            final(self).admin == old(self).admin,
            final(self).stream_wasm_hash == old(self).stream_wasm_hash,
            final(self).stream_count == old(self).stream_count + 1,
            final(self).stream_infos@ == old(self).stream_infos@.insert(plan.stream_id, plan.info),
            listed(final(self).streams_by_sender@, plan.info.sender.id) == listed(
                old(self).streams_by_sender@,
                plan.info.sender.id,
            ).push(plan.stream_id),
            listed(final(self).streams_by_recipient@, plan.info.recipient.id) == listed(
                old(self).streams_by_recipient@,
                plan.info.recipient.id,
            ).push(plan.stream_id),
            forall|who: u64|
                who != plan.info.sender.id ==> #[trigger] listed(final(self).streams_by_sender@, who)
                    == listed(old(self).streams_by_sender@, who),
            forall|who: u64|
                who != plan.info.recipient.id ==> #[trigger] listed(
                    final(self).streams_by_recipient@,
                    who,
                ) == listed(old(self).streams_by_recipient@, who),
    {
        let id = self.stream_count;
        let ghost old_infos = self.stream_infos@;
        self.stream_infos.insert(id, plan.info);
        proof {
            lemma_indexed_ids_frame(old_infos, self.stream_infos@, id as nat, true);
            lemma_indexed_ids_frame(old_infos, self.stream_infos@, id as nat, false);
        }
        add_stream_for(&mut self.streams_by_sender, plan.info.sender.id, id);
        add_stream_for(&mut self.streams_by_recipient, plan.info.recipient.id, id);
        self.stream_count = id + 1;
        proof {
            let infos = self.stream_infos@;
            let n = self.stream_count as nat;
            assert forall|who: u64| who != plan.info.sender.id implies #[trigger] listed(
                self.streams_by_sender@,
                who,
            ) == listed(old(self).streams_by_sender@, who) by {}
            assert forall|who: u64| who != plan.info.recipient.id implies #[trigger] listed(
                self.streams_by_recipient@,
                who,
            ) == listed(old(self).streams_by_recipient@, who) by {}
            if old(self).wf() {
                assert forall|who: u64| #![all_triggers] {
                    &&& (self.streams_by_sender@.contains_key(who) ==> self.streams_by_sender@[who]@
                        == indexed_ids(infos, n, true, who))
                    &&& (!self.streams_by_sender@.contains_key(who) ==> indexed_ids(infos, n, true, who)
                        == Seq::<u32>::empty())
                } by {
                    assert(indexed_ids(infos, id as nat, true, who) == indexed_ids(
                        old_infos,
                        id as nat,
                        true,
                        who,
                    ));
                    assert(listed(old(self).streams_by_sender@, who) == indexed_ids(
                        old_infos,
                        id as nat,
                        true,
                        who,
                    ));
                }
                assert forall|who: u64| #![all_triggers] {
                    &&& (self.streams_by_recipient@.contains_key(who)
                        ==> self.streams_by_recipient@[who]@ == indexed_ids(infos, n, false, who))
                    &&& (!self.streams_by_recipient@.contains_key(who) ==> indexed_ids(
                        infos,
                        n,
                        false,
                        who,
                    ) == Seq::<u32>::empty())
                } by {
                    assert(indexed_ids(infos, id as nat, false, who) == indexed_ids(
                        old_infos,
                        id as nat,
                        false,
                        who,
                    ));
                    assert(listed(old(self).streams_by_recipient@, who) == indexed_ids(
                        old_infos,
                        id as nat,
                        false,
                        who,
                    ));
                }
            }
        }
    }

    /// Read-only: cached stream metadata by ID, or `StreamNotFound`.
    pub fn get_stream(&self, stream_id: u32) -> (r: Result<StreamInfo, StreamError>)
        ensures
            self.stream_infos@.contains_key(stream_id) ==> r == Ok::<StreamInfo, StreamError>(
                self.stream_infos@[stream_id],
            ),
            !self.stream_infos@.contains_key(stream_id) ==> r == Err::<StreamInfo, StreamError>(
                StreamError::StreamNotFound,
            ),
    {
        match self.stream_infos.get(&stream_id) {
            Some(info) => Ok(*info),
            None => Err(StreamError::StreamNotFound),
        }
    }

    /// Read-only: all stream IDs created by `sender`, in creation order.
    pub fn get_streams_by_sender(&self, sender: Address) -> (ids: Vec<u32>)
        ensures
            ids@ == listed(self.streams_by_sender@, sender.id),
            self.wf() ==> ids@ == indexed_ids(
                self.stream_infos@,
                self.stream_count as nat,
                true,
                sender.id,
            ),
    {
        copy_listed(&self.streams_by_sender, sender.id)
    }

    /// Read-only: all stream IDs paying `recipient`, in creation order.
    pub fn get_streams_by_recipient(&self, recipient: Address) -> (ids: Vec<u32>)
        ensures
            ids@ == listed(self.streams_by_recipient@, recipient.id),
            self.wf() ==> ids@ == indexed_ids(
                self.stream_infos@,
                self.stream_count as nat,
                false,
                recipient.id,
            ),
    {
        copy_listed(&self.streams_by_recipient, recipient.id)
    }
}

/// A copy of the IDs listed for `who`.
fn copy_listed(index: &HashMap<u64, Vec<u32>>, who: u64) -> (ids: Vec<u32>)
    ensures
        ids@ == listed(index@, who),
{
    let mut out: Vec<u32> = Vec::new();
    match index.get(&who) {
        Some(list) => {
            let n = list.len();
            for i in 0..n
                invariant
                    n == list@.len(),
                    out@ == list@.subrange(0, i as int),
            {
                out.push(list[i]);
                assert(out@ =~= list@.subrange(0, i + 1));
            }
            assert(out@ =~= list@);
        },
        None => {},
    }
    out
}

/// Append `id` to the list kept for `who`, creating the list if needed.
fn add_stream_for(index: &mut HashMap<u64, Vec<u32>>, who: u64, id: u32)
    ensures
        final(index)@.contains_key(who),
        final(index)@[who]@ == listed(old(index)@, who).push(id),
        forall|k: u64| k != who ==> #[trigger] final(index)@.contains_key(k) == old(index)@.contains_key(k),
        forall|k: u64|
            k != who && #[trigger] old(index)@.contains_key(k) ==> final(index)@[k] == old(index)@[k],
{
    let mut list = match index.remove(&who) {
        Some(list) => list,
        None => Vec::new(),
    };
    list.push(id);
    index.insert(who, list);
}

/// The index entries below `n` depend only on the streams below `n`.
proof fn lemma_indexed_ids_frame(
    a: Map<u32, StreamInfo>,
    b: Map<u32, StreamInfo>,
    n: nat,
    by_sender: bool,
)
    requires
        n <= u32::MAX,
        forall|k: u32| k < n ==> #[trigger] a[k] == b[k],
    ensures
        forall|who: u64| #[trigger] indexed_ids(a, n, by_sender, who) == indexed_ids(b, n, by_sender, who),
    decreases n,
{
    if n > 0 {
        lemma_indexed_ids_frame(a, b, (n - 1) as nat, by_sender);
        assert forall|who: u64| #[trigger]
            indexed_ids(a, n, by_sender, who) == indexed_ids(b, n, by_sender, who) by {
            assert(a[(n - 1) as u32] == b[(n - 1) as u32]);
            assert(indexed_ids(a, (n - 1) as nat, by_sender, who) == indexed_ids(
                b,
                (n - 1) as nat,
                by_sender,
                who,
            ));
        }
    }
}

} // verus!
