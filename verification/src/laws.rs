//! What holds of the client whatever is posted and pulled, stated over the
//! values that the operations' contracts speak of, and proved.

use vstd::prelude::*;
use crate::bridge::{BridgeView, Publication, StreamItem, StreamPoll, BRIDGE_CAPACITY};
use crate::client::{as_items, backed, BatchStatus, ClientView, PostStatus};
use crate::commitment::BlockCommitment;
use crate::error::SettlementError;
use crate::store::{lookup, put_all};

verus! {

/// No two commitments of `batch` attest to the same height.
pub open spec fn distinct_heights(batch: Seq<BlockCommitment>) -> bool {
    forall|i: int, j: int|
        0 <= i < j < batch.len() ==> (#[trigger] batch[i]).height != (#[trigger] batch[j]).height
}

/// The answer of a batch, seen from one commitment further to the front.
pub open spec fn one_later(outcome: Result<BatchStatus, SettlementError>) -> Result<
    BatchStatus,
    SettlementError,
> {
    match outcome {
        Ok(BatchStatus::SuspendedAt(index)) => Ok(BatchStatus::SuspendedAt((index + 1) as usize)),
        _ => outcome,
    }
}

/// One thing that happens to a bridge: an item is published, a live stream
/// handle pulls, or the bridge is closed.
pub enum BridgeStep {
    Publish(StreamItem),
    Pull,
    Close,
}

/// The bridge after `step`.
pub open spec fn bridge_after_step(bridge: BridgeView, step: BridgeStep) -> BridgeView {
    match step {
        BridgeStep::Publish(item) => bridge.after_publish(item),
        BridgeStep::Pull => bridge.after_poll(false),
        BridgeStep::Close => bridge.after_close(),
    }
}

/// The bridge after `steps`, in their order.
pub open spec fn bridge_after_steps(bridge: BridgeView, steps: Seq<BridgeStep>) -> BridgeView
    decreases steps.len(),
{
    if steps.len() == 0 {
        bridge
    } else {
        bridge_after_step(bridge_after_steps(bridge, steps.drop_last()), steps.last())
    }
}

/// The items that `steps` put into the buffer, in their order: those whose
/// publication was answered `Enqueued`.
pub open spec fn enqueued(bridge: BridgeView, steps: Seq<BridgeStep>) -> Seq<StreamItem>
    decreases steps.len(),
{
    if steps.len() == 0 {
        Seq::empty()
    } else {
        let before = bridge_after_steps(bridge, steps.drop_last());
        let so_far = enqueued(bridge, steps.drop_last());
        match steps.last() {
            BridgeStep::Publish(item) => if before.publish_outcome(item) == Ok::<
                Publication,
                SettlementError,
            >(Publication::Enqueued) {
                so_far.push(item)
            } else {
                so_far
            },
            _ => so_far,
        }
    }
}

/// The items that the pulls among `steps` yielded, in their order.
pub open spec fn yielded(bridge: BridgeView, steps: Seq<BridgeStep>) -> Seq<StreamItem>
    decreases steps.len(),
{
    if steps.len() == 0 {
        Seq::empty()
    } else {
        let before = bridge_after_steps(bridge, steps.drop_last());
        let so_far = yielded(bridge, steps.drop_last());
        match steps.last() {
            BridgeStep::Pull => match before.poll_outcome(false) {
                StreamPoll::Ready(item) => so_far.push(item),
                _ => so_far,
            },
            _ => so_far,
        }
    }
}

/// One thing that happens to a client: a commitment is posted, a live
/// stream handle pulls, or the bridge is closed.
pub enum ClientStep {
    Post(BlockCommitment),
    Pull,
    Close,
}

/// The client after `step`.
pub open spec fn after_step(client: ClientView, step: ClientStep) -> ClientView {
    match step {
        ClientStep::Post(commitment) => client.after_post(commitment),
        ClientStep::Pull => ClientView {
            commitments: client.commitments,
            bridge: client.bridge.after_poll(false),
        },
        ClientStep::Close => ClientView {
            commitments: client.commitments,
            bridge: client.bridge.after_close(),
        },
    }
}

/// The client after `steps`, in their order.
pub open spec fn after_steps(client: ClientView, steps: Seq<ClientStep>) -> ClientView
    decreases steps.len(),
{
    if steps.len() == 0 {
        client
    } else {
        after_step(after_steps(client, steps.drop_last()), steps.last())
    }
}

/// The commitments that `steps` put on the stream, in their order: those
/// whose post was answered `Posted`.
pub open spec fn streamed(client: ClientView, steps: Seq<ClientStep>) -> Seq<BlockCommitment>
    decreases steps.len(),
{
    if steps.len() == 0 {
        Seq::empty()
    } else {
        let before = after_steps(client, steps.drop_last());
        let so_far = streamed(client, steps.drop_last());
        match steps.last() {
            ClientStep::Post(commitment) => if before.post_outcome(commitment) == Ok::<
                PostStatus,
                SettlementError,
            >(PostStatus::Posted) {
                so_far.push(commitment)
            } else {
                so_far
            },
            _ => so_far,
        }
    }
}

/// The items that the pulls among `steps` yielded, in their order.
pub open spec fn received(client: ClientView, steps: Seq<ClientStep>) -> Seq<StreamItem>
    decreases steps.len(),
{
    if steps.len() == 0 {
        Seq::empty()
    } else {
        let before = after_steps(client, steps.drop_last());
        let so_far = received(client, steps.drop_last());
        match steps.last() {
            ClientStep::Pull => match before.bridge.poll_outcome(false) {
                StreamPoll::Ready(item) => so_far.push(item),
                _ => so_far,
            },
            _ => so_far,
        }
    }
}

/// The bridge delivers in the order of publication, commitments and failures
/// alike, and neither loses nor invents an item: what was buffered at the
/// start, followed by what was enqueued since, is what was yielded since,
/// followed by what is buffered now.
pub proof fn law_bridge_conserves_order(bridge: BridgeView, steps: Seq<BridgeStep>)
    ensures
        bridge.queue + enqueued(bridge, steps) == yielded(bridge, steps) + bridge_after_steps(
            bridge,
            steps,
        ).queue,
    decreases steps.len(),
{
    if steps.len() > 0 {
        let front = steps.drop_last();
        law_bridge_conserves_order(bridge, front);
        let before = bridge_after_steps(bridge, front);
        if let BridgeStep::Publish(item) = steps.last() {
            assert((yielded(bridge, front) + before.queue).push(item) =~= yielded(bridge, front)
                + before.queue.push(item));
        }
    }
}

/// Whatever is published, pulled or closed, the buffer stays within
/// `BRIDGE_CAPACITY`, and a closed bridge stays closed.
pub proof fn law_bridge_stays_within_capacity(bridge: BridgeView, steps: Seq<BridgeStep>)
    requires
        bridge.wf(),
    ensures
        bridge_after_steps(bridge, steps).wf(),
        bridge.closed ==> bridge_after_steps(bridge, steps).closed,
    decreases steps.len(),
{
    if steps.len() > 0 {
        law_bridge_stays_within_capacity(bridge, steps.drop_last());
    }
}

/// After a commitment is posted, a lookup at its height finds exactly that
/// commitment, whatever the bridge answered.
pub proof fn law_post_then_get(client: ClientView, commitment: BlockCommitment)
    ensures
        lookup(client.after_post(commitment).commitments, commitment.height) == Some(commitment),
{
}

/// Of two commitments posted one after the other at the same height, a
/// lookup at that height finds the second.
pub proof fn law_last_write_wins(client: ClientView, first: BlockCommitment, second: BlockCommitment)
    requires
        first.height == second.height,
    ensures
        lookup(client.after_post(first).after_post(second).commitments, first.height) == Some(
            second,
        ),
{
}

/// A post leaves the entries at all other heights as they were, and removes
/// none.
pub proof fn law_post_keeps_other_heights(
    client: ClientView,
    commitment: BlockCommitment,
    height: u64,
)
    requires
        height != commitment.height,
    ensures
        lookup(client.after_post(commitment).commitments, height) == lookup(
            client.commitments,
            height,
        ),
{
}

/// After a run of puts, a lookup at the height of one of them finds it,
/// unless a later one of the run has the same height.
pub proof fn law_put_all_last_wins(
    entries: Map<u64, BlockCommitment>,
    batch: Seq<BlockCommitment>,
    i: int,
)
    requires
        0 <= i < batch.len(),
        forall|j: int| i < j < batch.len() ==> (#[trigger] batch[j]).height != batch[i].height,
    ensures
        lookup(put_all(entries, batch), batch[i].height) == Some(batch[i]),
    decreases batch.len(),
{
    if i < batch.len() - 1 {
        law_put_all_last_wins(entries, batch.drop_last(), i);
    }
}

/// A run of puts leaves the entry at a height that none of them has as it
/// was.
pub proof fn law_put_all_keeps_other_heights(
    entries: Map<u64, BlockCommitment>,
    batch: Seq<BlockCommitment>,
    height: u64,
)
    requires
        forall|j: int| 0 <= j < batch.len() ==> (#[trigger] batch[j]).height != height,
    ensures
        lookup(put_all(entries, batch), height) == lookup(entries, height),
    decreases batch.len(),
{
    if batch.len() > 0 {
        law_put_all_keeps_other_heights(entries, batch.drop_last(), height);
    }
}

/// A run of puts is the first put followed by the run of the others.
pub proof fn law_put_all_unfolds(entries: Map<u64, BlockCommitment>, batch: Seq<BlockCommitment>)
    requires
        batch.len() > 0,
    ensures
        put_all(entries, batch) == put_all(
            entries.insert(batch[0].height, batch[0]),
            batch.drop_first(),
        ),
    decreases batch.len(),
{
    if batch.len() == 1 {
        assert(put_all(entries, batch.drop_last()) == entries);
    } else {
        let front = batch.drop_last();
        law_put_all_unfolds(entries, front);
        assert(front.drop_first() =~= batch.drop_first().drop_last());
    }
}

/// After a batch of commitments with distinct heights, however it was
/// answered, a lookup at the height of each commitment that the batch reached
/// finds that commitment. A batch that is answered `Posted` has reached all
/// of them.
pub proof fn law_batch_heights_retrievable(client: ClientView, batch: Seq<BlockCommitment>, i: int)
    requires
        distinct_heights(batch),
        0 <= i < client.batch_written(batch),
    ensures
        i < batch.len(),
        client.batch_outcome(batch) == Ok::<BatchStatus, SettlementError>(BatchStatus::Posted)
            ==> client.batch_written(batch) == batch.len(),
        lookup(client.after_batch(batch).commitments, batch[i].height) == Some(batch[i]),
{
    law_put_all_last_wins(client.commitments, batch.take(client.batch_written(batch) as int), i);
}

/// After a batch of commitments with distinct heights that was answered
/// `Posted`, a lookup at the height of each of them finds that commitment.
pub proof fn law_posted_batch_is_retrievable(client: ClientView, batch: Seq<BlockCommitment>, i: int)
    requires
        distinct_heights(batch),
        client.batch_outcome(batch) == Ok::<BatchStatus, SettlementError>(BatchStatus::Posted),
        0 <= i < batch.len(),
    ensures
        lookup(client.after_batch(batch).commitments, batch[i].height) == Some(batch[i]),
{
    law_batch_heights_retrievable(client, batch, i);
}

/// The empty batch changes nothing and is answered `Posted`.
pub proof fn law_batch_of_none(client: ClientView)
    ensures
        client.after_batch(Seq::empty()) == client,
        client.batch_outcome(Seq::empty()) == Ok::<BatchStatus, SettlementError>(
            BatchStatus::Posted,
        ),
{
}

/// A batch is its first commitment posted, and then, if that post was
/// answered `Posted`, the batch of the others; if it was not, the batch
/// stops there with that answer.
pub proof fn law_batch_unfolds(client: ClientView, batch: Seq<BlockCommitment>)
    requires
        batch.len() > 0,
    ensures
        client.post_outcome(batch[0]) == Ok::<PostStatus, SettlementError>(PostStatus::Posted) ==> {
            &&& client.after_batch(batch) == client.after_post(batch[0]).after_batch(
                batch.drop_first(),
            )
            &&& client.batch_outcome(batch) == one_later(
                client.after_post(batch[0]).batch_outcome(batch.drop_first()),
            )
        },
        client.post_outcome(batch[0]) == Ok::<PostStatus, SettlementError>(PostStatus::Suspended)
            ==> {
            &&& client.after_batch(batch) == client.after_post(batch[0])
            &&& client.batch_outcome(batch) == Ok::<BatchStatus, SettlementError>(
                BatchStatus::SuspendedAt(0),
            )
        },
        client.post_outcome(batch[0]) is Err ==> {
            &&& client.after_batch(batch) == client.after_post(batch[0])
            &&& client.batch_outcome(batch) == Err::<BatchStatus, SettlementError>(
                SettlementError::ChannelClosed,
            )
        },
{
    let rest = batch.drop_first();
    let next = client.after_post(batch[0]);
    assert(put_all(client.commitments, batch.take(1).drop_last()) == client.commitments);
    if client.post_outcome(batch[0]) == Ok::<PostStatus, SettlementError>(PostStatus::Posted) {
        let written = client.batch_written(batch);
        let published = client.batch_published(batch);
        law_put_all_unfolds(client.commitments, batch.take(written as int));
        assert(batch.take(written as int).drop_first() =~= rest.take(written - 1));
        assert(client.bridge.queue + as_items(batch.take(published as int)) =~= next.bridge.queue
            + as_items(rest.take(published - 1)));
    }
}

/// Every operation keeps the client well formed.
pub proof fn law_steps_keep_wf(client: ClientView, steps: Seq<ClientStep>)
    requires
        client.wf(),
    ensures
        after_steps(client, steps).wf(),
    decreases steps.len(),
{
    if steps.len() > 0 {
        law_steps_keep_wf(client, steps.drop_last());
    }
}

/// No post and no pull ever removes an entry of the store.
pub proof fn law_heights_persist(client: ClientView, steps: Seq<ClientStep>, height: u64)
    requires
        client.commitments.contains_key(height),
    ensures
        after_steps(client, steps).commitments.contains_key(height),
    decreases steps.len(),
{
    if steps.len() > 0 {
        law_heights_persist(client, steps.drop_last(), height);
    }
}

/// The bridge neither loses, nor invents, nor reorders: what was buffered at
/// the start, followed by the commitments put on the stream since, is what
/// was received since, followed by what is buffered now.
pub proof fn law_stream_conserves_order(client: ClientView, steps: Seq<ClientStep>)
    ensures
        client.bridge.queue + as_items(streamed(client, steps)) == received(client, steps)
            + after_steps(client, steps).bridge.queue,
    decreases steps.len(),
{
    if steps.len() > 0 {
        let front = steps.drop_last();
        law_stream_conserves_order(client, front);
        let before = after_steps(client, front);
        if let ClientStep::Post(commitment) = steps.last() {
            assert((received(client, front) + before.bridge.queue).push(Ok(commitment))
                =~= received(client, front) + before.bridge.queue.push(Ok(commitment)));
        }
    }
}

/// A subscriber attached to an empty bridge receives the commitments posted
/// from then on in the order of their posts, each as it was posted.
pub proof fn law_subscriber_receives_posts_in_order(
    client: ClientView,
    steps: Seq<ClientStep>,
    k: int,
)
    requires
        client.bridge.queue.len() == 0,
        0 <= k < received(client, steps).len(),
    ensures
        k < streamed(client, steps).len(),
        received(client, steps)[k] == Ok::<BlockCommitment, SettlementError>(
            streamed(client, steps)[k],
        ),
{
    law_stream_conserves_order(client, steps);
    let pulled = received(client, steps);
    let left = after_steps(client, steps).bridge.queue;
    assert((pulled + left)[k] == pulled[k]);
}

/// What a subscriber receives from a well-formed client is a commitment, and
/// the store has an entry at its height by then and from then on.
pub proof fn law_received_commitments_are_stored(
    client: ClientView,
    steps: Seq<ClientStep>,
    k: int,
)
    requires
        client.wf(),
        0 <= k < received(client, steps).len(),
    ensures
        backed(after_steps(client, steps).commitments, received(client, steps)[k]),
    decreases steps.len(),
{
    let front = steps.drop_last();
    law_steps_keep_wf(client, front);
    if k < received(client, front).len() {
        law_received_commitments_are_stored(client, front, k);
    }
}

/// The stream of a well-formed client carries no failure, so a live handle
/// ends on a pull exactly when the bridge is closed and drained.
pub proof fn law_client_stream_ends_when_finished(client: ClientView)
    requires
        client.wf(),
    ensures
        client.bridge.ended_after_poll(false) == client.bridge.is_finished(),
{
}

/// A closed bridge stays closed, and once it is drained as well nothing
/// changes any more: every post fails, every pull finds the stream over.
pub proof fn law_closed_is_final(client: ClientView, steps: Seq<ClientStep>)
    requires
        client.bridge.closed,
    ensures
        after_steps(client, steps).bridge.closed,
        streamed(client, steps) == Seq::<BlockCommitment>::empty(),
        client.bridge.is_finished() ==> after_steps(client, steps).bridge == client.bridge
            && received(client, steps) == Seq::<StreamItem>::empty(),
    decreases steps.len(),
{
    if steps.len() > 0 {
        law_closed_is_final(client, steps.drop_last());
    }
}

/// A post to an open bridge at capacity is suspended: it is no failure,
/// nothing buffered is dropped, the commitment is in the store, and posting
/// again is suspended again for as long as nothing is pulled. Once a
/// subscriber has pulled, posting again puts the commitment on the stream.
pub proof fn law_post_beyond_capacity_suspends(client: ClientView, commitment: BlockCommitment)
    requires
        !client.bridge.closed,
        client.bridge.queue.len() == BRIDGE_CAPACITY,
    ensures
        client.post_outcome(commitment) == Ok::<PostStatus, SettlementError>(PostStatus::Suspended),
        client.after_post(commitment).bridge == client.bridge,
        lookup(client.after_post(commitment).commitments, commitment.height) == Some(commitment),
        client.after_post(commitment).after_post(commitment) == client.after_post(commitment),
        after_step(client.after_post(commitment), ClientStep::Pull).post_outcome(commitment)
            == Ok::<PostStatus, SettlementError>(PostStatus::Posted),
        after_step(client.after_post(commitment), ClientStep::Pull).after_post(
            commitment,
        ).bridge.queue == client.bridge.queue.drop_first().push(Ok(commitment)),
{
    let once = client.after_post(commitment);
    assert(once.after_post(commitment).commitments =~= once.commitments);
}

/// A batch longer than the room left in an open bridge is suspended at the
/// first commitment that finds the bridge full; the commitments before it
/// are on the stream, in their order, behind what was buffered.
pub proof fn law_batch_beyond_capacity_suspends(client: ClientView, batch: Seq<BlockCommitment>)
    requires
        client.bridge.wf(),
        !client.bridge.closed,
        batch.len() > client.bridge.room(),
    ensures
        client.batch_outcome(batch) == Ok::<BatchStatus, SettlementError>(
            BatchStatus::SuspendedAt(client.bridge.room() as usize),
        ),
        client.after_batch(batch).bridge.queue == client.bridge.queue + as_items(
            batch.take(client.bridge.room() as int),
        ),
        client.after_batch(batch).bridge.queue.len() == BRIDGE_CAPACITY,
{
}

} // verus!
