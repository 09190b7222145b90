//! The stream bridge: a bounded first-in-first-out conduit between the
//! poster of commitments and the one place where they are consumed.
//!
//! The buffer is a `tokio::sync::mpsc` channel whose two halves the bridge
//! keeps to itself. The first part of this file states, without proof, what
//! that channel does when a single owner uses both halves in turn; the rest
//! is verified against those statements.

use vstd::prelude::*;
use tokio::sync::mpsc::error::{TryRecvError, TrySendError};
use tokio::sync::mpsc::{Receiver, Sender};
use crate::commitment::BlockCommitment;
use crate::error::SettlementError;

verus! {

/// What travels through the bridge: a commitment, or a failure in its place.
pub type StreamItem = Result<BlockCommitment, SettlementError>;

/// Number of items that the bridge buffers before a publisher has to wait.
pub const BRIDGE_CAPACITY: usize = 10;

/// `tokio::sync::mpsc::Sender`, carried as an opaque value.
#[verifier::external_type_specification]
#[verifier::external_body]
#[verifier::reject_recursive_types(T)]
pub struct ExSender<T>(tokio::sync::mpsc::Sender<T>);

/// `tokio::sync::mpsc::Receiver`, carried as an opaque value.
#[verifier::external_type_specification]
#[verifier::external_body]
#[verifier::reject_recursive_types(T)]
pub struct ExReceiver<T>(tokio::sync::mpsc::Receiver<T>);

/// The messages sent to `rx` and not yet received, oldest first.
pub uninterp spec fn buffered(rx: Receiver<StreamItem>) -> Seq<StreamItem>;

/// The buffer size that the channel of `rx` was created with.
pub uninterp spec fn bound(rx: Receiver<StreamItem>) -> nat;

/// Whether `Receiver::close` has been called on `rx`.
pub uninterp spec fn shut(rx: Receiver<StreamItem>) -> bool;

/// Whether `tx` is the only sending half of the channel that `rx` receives
/// from, as when both come out of one call of `tokio::sync::mpsc::channel`
/// and `tx` was never cloned.
pub uninterp spec fn feeds(tx: Sender<StreamItem>, rx: Receiver<StreamItem>) -> bool;

/// The bridge. It owns both halves of its channel, so that every item in the
/// buffer was put there by `publish` and leaves it through `poll_next`.
pub struct StreamBridge {
    sender: Sender<StreamItem>,
    receiver: Receiver<StreamItem>,
}

/// Outcome of offering one item to the channel without waiting.
enum Offer {
    Accepted,
    Full(StreamItem),
    Closed(StreamItem),
}

/// Outcome of taking one item from the channel without waiting.
enum Take {
    Item(StreamItem),
    Empty,
    Disconnected,
}

/// Calls `tokio::sync::mpsc::channel`.
///
/// Claims that the two halves belong to one channel, which is open and empty
/// and has the buffer size asked for. The outside function panics on a size
/// of zero and on one above `usize::MAX >> 3`; the sizes admitted here are
/// within that wherever `usize` has 32 bits or more.
#[verifier::external_body]
fn channel(buffer: usize) -> (ends: (Sender<StreamItem>, Receiver<StreamItem>))
    requires
        0 < buffer <= 0x1fff_ffff,
    ensures
        feeds(ends.0, ends.1),
        buffered(ends.1) == Seq::<StreamItem>::empty(),
        bound(ends.1) == buffer,
        !shut(ends.1),
{
    tokio::sync::mpsc::channel(buffer)
}

impl StreamBridge {
    /// Calls `Sender::try_send`.
    ///
    /// Claims that a closed channel refuses the item, that an open one whose
    /// buffer holds as many items as its size refuses it as well, that any
    /// other puts it behind what is buffered, and that a refused item comes
    /// back as it was.
    #[verifier::external_body]
    fn try_send(&mut self, item: StreamItem) -> (offer: Offer)
        requires
            feeds(old(self).sender, old(self).receiver),
        ensures
            feeds(final(self).sender, final(self).receiver),
            bound(final(self).receiver) == bound(old(self).receiver),
            shut(final(self).receiver) == shut(old(self).receiver),
            offer == (if shut(old(self).receiver) {
                Offer::Closed(item)
            } else if buffered(old(self).receiver).len() >= bound(old(self).receiver) {
                Offer::Full(item)
            } else {
                Offer::Accepted
            }),
            buffered(final(self).receiver) == (if offer is Accepted {
                buffered(old(self).receiver).push(item)
            } else {
                buffered(old(self).receiver)
            }),
    {
        match self.sender.try_send(item) {
            Ok(()) => Offer::Accepted,
            Err(TrySendError::Full(item)) => Offer::Full(item),
            Err(TrySendError::Closed(item)) => Offer::Closed(item),
        }
    }

    /// Calls `Receiver::try_recv`.
    ///
    /// Claims that the oldest buffered item is handed out and leaves the
    /// buffer, and that an empty buffer is reported as disconnected when the
    /// channel is closed and as empty when it is open.
    #[verifier::external_body]
    fn try_recv(&mut self) -> (take: Take)
        requires
            feeds(old(self).sender, old(self).receiver),
        ensures
            feeds(final(self).sender, final(self).receiver),
            bound(final(self).receiver) == bound(old(self).receiver),
            shut(final(self).receiver) == shut(old(self).receiver),
            take == (if buffered(old(self).receiver).len() > 0 {
                Take::Item(buffered(old(self).receiver).first())
            } else if shut(old(self).receiver) {
                Take::Disconnected
            } else {
                Take::Empty
            }),
            buffered(final(self).receiver) == (if take is Item {
                buffered(old(self).receiver).drop_first()
            } else {
                buffered(old(self).receiver)
            }),
    {
        match self.receiver.try_recv() {
            Ok(item) => Take::Item(item),
            Err(TryRecvError::Empty) => Take::Empty,
            Err(TryRecvError::Disconnected) => Take::Disconnected,
        }
    }

    /// Calls `Receiver::close`.
    ///
    /// Claims that the channel is closed afterwards and that what is buffered
    /// stays buffered.
    #[verifier::external_body]
    fn close_receiver(&mut self)
        requires
            feeds(old(self).sender, old(self).receiver),
        ensures
            feeds(final(self).sender, final(self).receiver),
            bound(final(self).receiver) == bound(old(self).receiver),
            shut(final(self).receiver),
            buffered(final(self).receiver) == buffered(old(self).receiver),
    {
        self.receiver.close()
    }

    /// Calls `Receiver::is_closed`.
    ///
    /// Claims that, with the sending half alive, the answer says whether
    /// `Receiver::close` has been called.
    #[verifier::external_body]
    fn is_closed(&self) -> (closed: bool)
        requires
            feeds(self.sender, self.receiver),
        ensures
            closed == shut(self.receiver),
    {
        self.receiver.is_closed()
    }

    /// Calls `Receiver::is_empty`.
    ///
    /// Claims that the answer says whether nothing is buffered.
    #[verifier::external_body]
    fn is_empty(&self) -> (empty: bool)
        ensures
            empty == (buffered(self.receiver).len() == 0),
    {
        self.receiver.is_empty()
    }
}

/// The bridge as a value: what is buffered, oldest first, and whether the
/// bridge has been closed to publishers.
pub struct BridgeView {
    pub queue: Seq<StreamItem>,
    pub closed: bool,
}

/// What became of an item handed to `publish`.
#[derive(Debug, PartialEq, Eq)]
pub enum Publication {
    /// The item is buffered behind everything published before it.
    Enqueued,
    /// The buffer is full. Nothing was dropped: the item comes back, and the
    /// publisher waits until a subscriber has taken an item before it
    /// publishes again.
    Suspended(StreamItem),
}

/// What one pull on a stream yields.
#[derive(Debug, PartialEq, Eq)]
pub enum StreamPoll {
    /// The next item of the stream.
    Ready(StreamItem),
    /// Nothing is buffered yet; the subscriber waits for the next publish.
    Pending,
    /// The stream is over and yields nothing more.
    Ended,
}

/// A handle on the live feed: lazy, single-pass and not restartable. Every
/// handle draws from the same buffer, so an item goes to the one handle that
/// pulls it. A handle ends when it has yielded a failure, or when the bridge
/// is closed and drained.
#[derive(Debug)]
pub struct CommitmentStream {
    ended: bool,
}

impl CommitmentStream {
    /// Whether the handle has reached its end.
    pub closed spec fn ended(&self) -> bool {
        self.ended
    }

    /// Whether the handle has reached its end.
    pub fn is_ended(&self) -> (ended: bool)
        ensures
            ended == self.ended(),
    {
        self.ended
    }
}

impl BridgeView {
    /// The buffer never holds more than `BRIDGE_CAPACITY` items.
    pub open spec fn wf(self) -> bool {
        self.queue.len() <= BRIDGE_CAPACITY
    }

    /// The buffer is at capacity.
    pub open spec fn is_full(self) -> bool {
        self.queue.len() >= BRIDGE_CAPACITY
    }

    /// How many more items the buffer takes before it is full.
    pub open spec fn room(self) -> nat {
        if self.is_full() {
            0
        } else {
            (BRIDGE_CAPACITY - self.queue.len()) as nat
        }
    }

    /// The terminal state: closed to publishers, and drained.
    pub open spec fn is_finished(self) -> bool {
        self.closed && self.queue.len() == 0
    }

    /// The answer of `publish` to `item`.
    pub open spec fn publish_outcome(self, item: StreamItem) -> Result<
        Publication,
        SettlementError,
    > {
        if self.closed {
            Err(SettlementError::ChannelClosed)
        } else if self.is_full() {
            Ok(Publication::Suspended(item))
        } else {
            Ok(Publication::Enqueued)
        }
    }

    /// The bridge after `publish` of `item`: the item is appended exactly
    /// when the bridge is open and has room.
    pub open spec fn after_publish(self, item: StreamItem) -> BridgeView {
        if !self.closed && !self.is_full() {
            BridgeView { queue: self.queue.push(item), closed: self.closed }
        } else {
            self
        }
    }

    /// What a pull yields through a handle that has ended (`ended`) or not.
    pub open spec fn poll_outcome(self, ended: bool) -> StreamPoll {
        if ended {
            StreamPoll::Ended
        } else if self.queue.len() > 0 {
            StreamPoll::Ready(self.queue.first())
        } else if self.closed {
            StreamPoll::Ended
        } else {
            StreamPoll::Pending
        }
    }

    /// The bridge after that pull: a live handle takes the oldest item.
    pub open spec fn after_poll(self, ended: bool) -> BridgeView {
        if !ended && self.queue.len() > 0 {
            BridgeView { queue: self.queue.drop_first(), closed: self.closed }
        } else {
            self
        }
    }

    /// Whether the handle has ended after that pull.
    pub open spec fn ended_after_poll(self, ended: bool) -> bool {
        ended || if self.queue.len() > 0 {
            self.queue.first() is Err
        } else {
            self.closed
        }
    }

    /// The bridge after `close`.
    pub open spec fn after_close(self) -> BridgeView {
        BridgeView { queue: self.queue, closed: true }
    }
}

impl View for StreamBridge {
    type V = BridgeView;

    closed spec fn view(&self) -> BridgeView {
        BridgeView { queue: buffered(self.receiver), closed: shut(self.receiver) }
    }
}

impl StreamBridge {
    /// The two halves belong to one channel, made for `BRIDGE_CAPACITY`
    /// items.
    pub closed spec fn linked(&self) -> bool {
        feeds(self.sender, self.receiver) && bound(self.receiver) == BRIDGE_CAPACITY
    }

    /// The bridge's invariant, which `new` establishes and every operation
    /// keeps.
    pub open spec fn wf(&self) -> bool {
        self.linked() && self@.wf()
    }

    /// An open, empty bridge.
    pub fn new() -> (bridge: Self)
        ensures
            bridge.wf(),
            bridge@ == (BridgeView { queue: Seq::empty(), closed: false }),
    {
        let (sender, receiver) = channel(BRIDGE_CAPACITY);
        StreamBridge { sender, receiver }
    }

    /// Offers `item` to the bridge. An open bridge with room buffers it behind
    /// what it holds; a full one hands it back, so that the publisher can wait
    /// for a subscriber; a closed one fails with `ChannelClosed`.
    pub fn publish(&mut self, item: StreamItem) -> (outcome: Result<Publication, SettlementError>)
        requires
            old(self).wf(),
        ensures
            final(self).wf(),
            outcome == old(self)@.publish_outcome(item),
            final(self)@ == old(self)@.after_publish(item),
    {
        match self.try_send(item) {
            Offer::Accepted => Ok(Publication::Enqueued),
            Offer::Full(item) => Ok(Publication::Suspended(item)),
            Offer::Closed(_) => Err(SettlementError::ChannelClosed),
        }
    }

    /// Hands out a stream handle. Fails with `ChannelClosed` exactly when the
    /// bridge is closed and drained, since such a stream could never yield.
    pub fn subscribe(&self) -> (stream: Result<CommitmentStream, SettlementError>)
        requires
            self.wf(),
        ensures
            self@.is_finished() ==> stream == Err::<CommitmentStream, _>(
                SettlementError::ChannelClosed,
            ),
            !self@.is_finished() ==> stream is Ok && !stream->Ok_0.ended(),
    {
        if self.is_closed() && self.is_empty() {
            Err(SettlementError::ChannelClosed)
        } else {
            Ok(CommitmentStream { ended: false })
        }
    }

    /// Pulls once on `stream`. A live handle takes the oldest buffered item;
    /// with nothing buffered it is told to wait, or that the stream is over
    /// when the bridge is closed. A handle that yields a failure ends with it.
    pub fn poll_next(&mut self, stream: &mut CommitmentStream) -> (poll: StreamPoll)
        requires
            old(self).wf(),
        ensures
            final(self).wf(),
            poll == old(self)@.poll_outcome(old(stream).ended()),
            final(self)@ == old(self)@.after_poll(old(stream).ended()),
            final(stream).ended() == old(self)@.ended_after_poll(old(stream).ended()),
    {
        if stream.ended {
            return StreamPoll::Ended;
        }
        match self.try_recv() {
            Take::Item(item) => {
                if item.is_err() {
                    stream.ended = true;
                }
                StreamPoll::Ready(item)
            },
            Take::Empty => StreamPoll::Pending,
            Take::Disconnected => {
                stream.ended = true;
                StreamPoll::Ended
            },
        }
    }

    /// Closes the bridge to publishers. What is buffered stays for the
    /// subscribers, whose streams end once it is drained.
    pub fn close(&mut self)
        requires
            old(self).wf(),
        ensures
            final(self).wf(),
            final(self)@ == old(self)@.after_close(),
    {
        self.close_receiver();
    }
}

} // verus!
