//! Client-side store and stream bridge for settlement commitments.
//!
//! A commitment posted through [`McrSettlementClient`] is first written to a
//! height-keyed store and then offered to a bounded first-in-first-out
//! bridge, from which a subscriber pulls the commitments in the order of
//! their posts.
//!
//! Nothing here waits. Where a caller would have to wait (a poster for room
//! in the bridge, a subscriber for the next commitment), the operation says
//! so in its answer and leaves the waiting, and the calling again, to the
//! caller. Every operation is thereby a step from one state of the client to
//! the next, and its contract says which.
//!
//! - [`commitment`]: the value that is posted.
//! - [`store`]: the latest commitment per height.
//! - [`bridge`]: the bounded conduit and the stream handles that draw on it.
//! - [`client`]: the operations over the two.
//! - [`laws`]: what holds of any run of operations.

pub mod bridge;
pub mod client;
pub mod commitment;
pub mod error;
pub mod laws;
pub mod store;

pub use bridge::{
    BridgeView, CommitmentStream, Publication, StreamBridge, StreamItem, StreamPoll,
    BRIDGE_CAPACITY,
};
pub use client::{BatchStatus, ClientView, McrSettlementClient, PostStatus};
pub use commitment::{BlockCommitment, Commitment, Id};
pub use error::SettlementError;
pub use store::CommitmentStore;
