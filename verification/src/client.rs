//! The settlement client: the operations that post commitments, look them up
//! by height and feed them to a stream, over one store and one bridge.

use vstd::prelude::*;
use crate::bridge::{BridgeView, CommitmentStream, Publication, StreamBridge, StreamItem, StreamPoll};
use crate::commitment::BlockCommitment;
use crate::error::SettlementError;
use crate::store::{keyed_by_height, lookup, put_all, CommitmentStore};

verus! {

/// How far a post has come.
#[derive(Clone, Copy, Debug, PartialEq, Eq)]
pub enum PostStatus {
    /// The commitment is in the store and on the stream.
    Posted,
    /// The commitment is in the store, and the bridge is full: the poster
    /// waits until a subscriber has taken an item, then posts again.
    Suspended,
}

/// How far a batch has come.
#[derive(Clone, Copy, Debug, PartialEq, Eq)]
pub enum BatchStatus {
    /// Every commitment of the batch is in the store and on the stream.
    Posted,
    /// The post of the commitment at this index is suspended; those before
    /// it are posted, those behind it are untouched.
    SuspendedAt(usize),
}

/// The client as a value: the store's entries and the bridge.
pub struct ClientView {
    pub commitments: Map<u64, BlockCommitment>,
    pub bridge: BridgeView,
}

/// The stream items that stand for `batch`: each commitment, as a success.
pub open spec fn as_items(batch: Seq<BlockCommitment>) -> Seq<StreamItem> {
    Seq::new(batch.len(), |i: int| Ok::<BlockCommitment, SettlementError>(batch[i]))
}

/// `item` is a commitment, and `entries` has an entry at its height.
pub open spec fn backed(entries: Map<u64, BlockCommitment>, item: StreamItem) -> bool {
    match item {
        Ok(commitment) => entries.contains_key(commitment.height),
        Err(_) => false,
    }
}

impl ClientView {
    /// Every buffered item is a commitment that the store has an entry for,
    /// at its height: the store is written before the stream is fed.
    pub open spec fn stream_backed(self) -> bool {
        forall|i: int|
            0 <= i < self.bridge.queue.len() ==> backed(
                self.commitments,
                #[trigger] self.bridge.queue[i],
            )
    }

    /// The store files every entry under its own height, the bridge is within
    /// its capacity, and the stream is backed by the store.
    pub open spec fn wf(self) -> bool {
        keyed_by_height(self.commitments) && self.bridge.wf() && self.stream_backed()
    }

    /// The answer of `post_block_commitment` to `commitment`.
    pub open spec fn post_outcome(self, commitment: BlockCommitment) -> Result<
        PostStatus,
        SettlementError,
    > {
        if self.bridge.closed {
            Err(SettlementError::ChannelClosed)
        } else if self.bridge.is_full() {
            Ok(PostStatus::Suspended)
        } else {
            Ok(PostStatus::Posted)
        }
    }

    /// The client after `post_block_commitment`: the store is written in
    /// every case, and the bridge is offered the commitment.
    pub open spec fn after_post(self, commitment: BlockCommitment) -> ClientView {
        ClientView {
            commitments: self.commitments.insert(commitment.height, commitment),
            bridge: self.bridge.after_publish(Ok(commitment)),
        }
    }

    /// How many commitments of `batch`, from the front, reach the stream.
    pub open spec fn batch_published(self, batch: Seq<BlockCommitment>) -> nat {
        if self.bridge.closed {
            0
        } else if batch.len() <= self.bridge.room() {
            batch.len()
        } else {
            self.bridge.room()
        }
    }

    /// How many commitments of `batch`, from the front, reach the store: those
    /// that reach the stream, and the one at which the batch stops.
    pub open spec fn batch_written(self, batch: Seq<BlockCommitment>) -> nat {
        if self.batch_published(batch) < batch.len() {
            self.batch_published(batch) + 1
        } else {
            batch.len()
        }
    }

    /// The answer of `post_block_commitment_batch` to `batch`.
    pub open spec fn batch_outcome(self, batch: Seq<BlockCommitment>) -> Result<
        BatchStatus,
        SettlementError,
    > {
        if self.batch_published(batch) == batch.len() {
            Ok(BatchStatus::Posted)
        } else if self.bridge.closed {
            Err(SettlementError::ChannelClosed)
        } else {
            Ok(BatchStatus::SuspendedAt(self.batch_published(batch) as usize))
        }
    }

    /// The client after `post_block_commitment_batch`.
    pub open spec fn after_batch(self, batch: Seq<BlockCommitment>) -> ClientView {
        ClientView {
            commitments: put_all(
                self.commitments,
                batch.take(self.batch_written(batch) as int),
            ),
            bridge: BridgeView {
                queue: self.bridge.queue + as_items(
                    batch.take(self.batch_published(batch) as int),
                ),
                closed: self.bridge.closed,
            },
        }
    }
}

/// The settlement client. It alone writes to its store and publishes to its
/// bridge; nothing else can reach either.
pub struct McrSettlementClient {
    commitments: CommitmentStore,
    bridge: StreamBridge,
}

impl View for McrSettlementClient {
    type V = ClientView;

    closed spec fn view(&self) -> ClientView {
        ClientView { commitments: self.commitments@, bridge: self.bridge@ }
    }
}

impl McrSettlementClient {
    /// Store and bridge each keep their own invariant.
    pub closed spec fn parts_wf(&self) -> bool {
        self.commitments.wf() && self.bridge.wf()
    }

    /// The client's invariant, which `new` establishes and every operation
    /// keeps.
    pub open spec fn wf(&self) -> bool {
        self.parts_wf() && self@.wf()
    }

    /// A client with an empty store and an open, empty bridge.
    pub fn new() -> (client: Self)
        ensures
            client.wf(),
            client@ == (ClientView {
                commitments: Map::empty(),
                bridge: BridgeView { queue: Seq::empty(), closed: false },
            }),
    {
        McrSettlementClient { commitments: CommitmentStore::new(), bridge: StreamBridge::new() }
    }

    /// Writes `block_commitment` to the store, then offers it to the bridge.
    /// The store is written whatever the bridge answers.
    pub fn post_block_commitment(&mut self, block_commitment: BlockCommitment) -> (outcome: Result<
        PostStatus,
        SettlementError,
    >)
        requires
            old(self).wf(),
        ensures
            final(self).wf(),
            outcome == old(self)@.post_outcome(block_commitment),
            final(self)@ == old(self)@.after_post(block_commitment),
    {
        self.commitments.put(block_commitment);
        match self.bridge.publish(Ok(block_commitment)) {
            Ok(Publication::Enqueued) => Ok(PostStatus::Posted),
            Ok(Publication::Suspended(_)) => Ok(PostStatus::Suspended),
            Err(error) => Err(error),
        }
    }

    /// Posts the commitments of the batch one after the other, in their
    /// order, and stops at the first that is not posted: with its failure, or
    /// with the index at which the poster has to wait. What was posted before
    /// stays posted.
    pub fn post_block_commitment_batch(
        &mut self,
        block_commitment: Vec<BlockCommitment>,
    ) -> (outcome: Result<BatchStatus, SettlementError>)
        requires
            old(self).wf(),
        ensures
            final(self).wf(),
            outcome == old(self)@.batch_outcome(block_commitment@),
            final(self)@ == old(self)@.after_batch(block_commitment@),
    {
        let ghost start = self@;
        let ghost batch = block_commitment@;
        let count = block_commitment.len();
        let mut index: usize = 0;
        while index < count
            invariant
                start == old(self)@,
                batch == block_commitment@,
                count == batch.len(),
                index <= count,
                start.wf(),
                self.wf(),
                index <= start.batch_published(batch),
                self@.commitments == put_all(start.commitments, batch.take(index as int)),
                self@.bridge.queue == start.bridge.queue + as_items(batch.take(index as int)),
                self@.bridge.closed == start.bridge.closed,
            decreases count - index,
        {
            let commitment = block_commitment[index];
            proof {
                assert(batch.take(index + 1).drop_last() =~= batch.take(index as int));
            }
            match self.post_block_commitment(commitment) {
                Ok(PostStatus::Posted) => {},
                Ok(PostStatus::Suspended) => {
                    return Ok(BatchStatus::SuspendedAt(index));
                },
                Err(error) => {
                    return Err(error);
                },
            }
            index += 1;
        }
        Ok(BatchStatus::Posted)
    }

    /// The commitment most recently posted at `height`, if any. A height
    /// that was never posted is an empty answer, not a failure.
    pub fn get_commitment_at_height(&self, height: u64) -> (found: Result<
        Option<BlockCommitment>,
        SettlementError,
    >)
        requires
            self.wf(),
        ensures
            found == Ok::<_, SettlementError>(lookup(self@.commitments, height)),
    {
        Ok(self.commitments.get(height))
    }

    /// Hands out a handle on the stream of posted commitments. Fails with
    /// `ChannelClosed` exactly when the bridge is closed and drained.
    pub fn stream_block_commitments(&self) -> (stream: Result<CommitmentStream, SettlementError>)
        requires
            self.wf(),
        ensures
            self@.bridge.is_finished() ==> stream == Err::<CommitmentStream, _>(
                SettlementError::ChannelClosed,
            ),
            !self@.bridge.is_finished() ==> stream is Ok && !stream->Ok_0.ended(),
    {
        self.bridge.subscribe()
    }

    /// Pulls once on `stream`: the oldest commitment not yet pulled by any
    /// handle, or word that the subscriber has to wait, or that the stream
    /// is over. The store is not touched, and it has an entry at the height
    /// of whatever commitment comes out.
    pub fn next_commitment(&mut self, stream: &mut CommitmentStream) -> (poll: StreamPoll)
        requires
            old(self).wf(),
        ensures
            final(self).wf(),
            poll == old(self)@.bridge.poll_outcome(old(stream).ended()),
            poll matches StreamPoll::Ready(item) ==> backed(final(self)@.commitments, item),
            final(self)@.commitments == old(self)@.commitments,
            final(self)@.bridge == old(self)@.bridge.after_poll(old(stream).ended()),
            final(stream).ended() == old(self)@.bridge.ended_after_poll(old(stream).ended()),
    {
        self.bridge.poll_next(stream)
    }

    /// Closes the bridge to further posts. What is buffered stays for the
    /// subscribers; the store is not touched.
    pub fn close(&mut self)
        requires
            old(self).wf(),
        ensures
            final(self).wf(),
            final(self)@.commitments == old(self)@.commitments,
            final(self)@.bridge == old(self)@.bridge.after_close(),
    {
        self.bridge.close();
    }
}

} // verus!
