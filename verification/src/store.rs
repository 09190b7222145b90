//! The commitment store: the commitment most recently posted at each height.

use vstd::prelude::*;
use std::collections::HashMap;
use crate::commitment::BlockCommitment;

verus! {

broadcast use vstd::std_specs::hash::group_hash_axioms;

/// What a lookup at `height` finds in `entries`.
pub open spec fn lookup(entries: Map<u64, BlockCommitment>, height: u64) -> Option<
    BlockCommitment,
> {
    if entries.contains_key(height) {
        Some(entries[height])
    } else {
        None
    }
}

/// Every entry is filed under the height that it attests to.
pub open spec fn keyed_by_height(entries: Map<u64, BlockCommitment>) -> bool {
    forall|height: u64| #[trigger]
        entries.contains_key(height) ==> entries[height].height == height
}

/// `entries` after each commitment of `batch` has been put, in order.
pub open spec fn put_all(
    entries: Map<u64, BlockCommitment>,
    batch: Seq<BlockCommitment>,
) -> Map<u64, BlockCommitment>
    decreases batch.len(),
{
    if batch.len() == 0 {
        entries
    } else {
        put_all(entries, batch.drop_last()).insert(batch.last().height, batch.last())
    }
}

/// A mapping from height to commitment with at most one entry per height.
/// A later `put` at a height replaces the earlier one, and no entry is ever
/// removed.
pub struct CommitmentStore {
    entries: HashMap<u64, BlockCommitment>,
}

impl View for CommitmentStore {
    type V = Map<u64, BlockCommitment>;

    closed spec fn view(&self) -> Map<u64, BlockCommitment> {
        self.entries@
    }
}

impl CommitmentStore {
    /// Every entry is filed under its own height.
    pub open spec fn wf(&self) -> bool {
        keyed_by_height(self@)
    }

    /// The empty store.
    pub fn new() -> (store: Self)
        ensures
            store.wf(),
            store@ == Map::<u64, BlockCommitment>::empty(),
    {
        CommitmentStore { entries: HashMap::new() }
    }

    /// Files `commitment` under its height, in place of what was there.
    pub fn put(&mut self, commitment: BlockCommitment)
        requires
            old(self).wf(),
        ensures
            final(self).wf(),
            final(self)@ == old(self)@.insert(commitment.height, commitment),
    {
        self.entries.insert(commitment.height, commitment);
    }

    /// The commitment filed under `height`, if one was ever put there.
    pub fn get(&self, height: u64) -> (found: Option<BlockCommitment>)
        requires
            self.wf(),
        ensures
            found == lookup(self@, height),
            found matches Some(commitment) ==> commitment.height == height,
    {
        match self.entries.get(&height) {
            Some(commitment) => Some(*commitment),
            None => None,
        }
    }
}

} // verus!
