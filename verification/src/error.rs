//! Failures that the client reports or carries.

use vstd::prelude::*;

verus! {

/// A failure surfaced to the immediate caller, or carried through the bridge
/// to a subscriber in the position where it was published.
#[derive(Debug, PartialEq, Eq)]
pub enum SettlementError {
    /// The consuming side of the bridge is permanently gone.
    ChannelClosed,
    /// A failure of the feed that fills the bridge, with its message.
    Upstream(String),
}

impl Clone for SettlementError {
    fn clone(&self) -> (copy: Self)
        ensures
            copy == *self,
    {
        match self {
            SettlementError::ChannelClosed => SettlementError::ChannelClosed,
            SettlementError::Upstream(message) => SettlementError::Upstream(message.clone()),
        }
    }
}

} // verus!
