//! Properties of the factory registry.

use vstd::prelude::*;

use crate::common::{Address, StreamInfo, StreamStatus};

use super::{indexed_ids, new_stream_info, party};

verus! {

/// An index entry lists exactly the streams of that party: every listed ID
/// is a registered stream of the party, every stream of the party is
/// listed, and the IDs appear in creation order, each once.
pub proof fn lemma_index_lists_exactly_party_streams(
    infos: Map<u32, StreamInfo>,
    n: nat,
    by_sender: bool,
    who: u64,
)
    requires
        n <= u32::MAX + 1,
    ensures
        ({
            let ids = indexed_ids(infos, n, by_sender, who);
            &&& forall|j: int|
                0 <= j < ids.len() ==> #[trigger] ids[j] < n && party(infos[ids[j]], by_sender).id
                    == who
            &&& forall|id: u32|
                id < n && #[trigger] party(infos[id], by_sender).id == who ==> ids.contains(id)
            &&& forall|i: int, j: int| 0 <= i < j < ids.len() ==> ids[i] < ids[j]
        }),
    decreases n,
{
    if n > 0 {
        lemma_index_lists_exactly_party_streams(infos, (n - 1) as nat, by_sender, who);
        let prev = indexed_ids(infos, (n - 1) as nat, by_sender, who);
        let ids = indexed_ids(infos, n, by_sender, who);
        let last = (n - 1) as u32;
        if party(infos[last], by_sender).id == who {
            assert(ids == prev.push(last));
            assert(ids[prev.len() as int] == last);
            assert forall|id: u32|
                id < n && #[trigger] party(infos[id], by_sender).id == who implies ids.contains(
                id,
            ) by {
                if id == last {
                    assert(ids[prev.len() as int] == id);
                } else {
                    let k = choose|k: int| 0 <= k < prev.len() && prev[k] == id;
                    assert(ids[k] == id);
                }
            }
        } else {
            assert(ids == prev);
        }
    }
}

/// A new stream starts active at the creation time with nothing withdrawn,
/// holds the whole amount in escrow, and streams at the largest whole rate
/// that does not pay out more than the amount over the duration: the rate
/// times the duration is at most the amount, and one more token per second
/// would exceed it.
pub proof fn lemma_new_stream_rate_fits_amount(
    sender: Address,
    recipient: Address,
    asset: Address,
    amount: i128,
    duration: u32,
    now: u64,
)
    requires
        amount > 0,
        duration > 0,
    ensures
        ({
            let info = new_stream_info(sender, recipient, asset, amount, duration, now);
            &&& info.flow_rate >= 0
            &&& info.flow_rate * duration <= amount < (info.flow_rate + 1) * duration
            &&& info.total_amount == amount
            &&& info.withdrawn_amount == 0
            &&& info.start_time == now && info.last_update_time == now
            &&& info.status == StreamStatus::Active
            &&& info.sender == sender && info.recipient == recipient && info.asset == asset
        }),
{
    let a = amount as int;
    let d = duration as int;
    vstd::arithmetic::div_mod::lemma_fundamental_div_mod(a, d);
    vstd::arithmetic::div_mod::lemma_div_pos_is_pos(a, d);
    assert((a / d) * d <= a < (a / d + 1) * d) by (nonlinear_arith)
        requires
            d > 0,
            a == d * (a / d) + a % d,
            0 <= a % d < d,
    ;
}

} // verus!
