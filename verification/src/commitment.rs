//! The value that is posted: a block height, the block's identifier and the
//! digest of the state reached at that height.

use vstd::prelude::*;

verus! {

/// Number of bytes in a block identifier and in a commitment digest.
pub const DIGEST_LEN: usize = 32;

/// The sequence of `DIGEST_LEN` zero bytes.
pub open spec fn zero_digest() -> Seq<u8> {
    Seq::new(DIGEST_LEN as nat, |i: int| 0u8)
}

/// Opaque identifier of a block.
#[derive(Clone, Copy, Debug, PartialEq, Eq, Hash)]
pub struct Id(pub [u8; 32]);

/// Opaque digest of the state that a block commits to.
#[derive(Clone, Copy, Debug, PartialEq, Eq, Hash)]
pub struct Commitment(pub [u8; 32]);

/// Attestation that the chain reached `commitment` at `height` with block
/// `block_id`. Two values with equal fields are interchangeable.
#[derive(Clone, Copy, Debug, PartialEq, Eq, Hash)]
pub struct BlockCommitment {
    pub height: u64,
    pub block_id: Id,
    pub commitment: Commitment,
}

impl Id {
    /// The identifier made of zero bytes only.
    pub fn test() -> (id: Self)
        ensures
            id.0@ == zero_digest(),
    {
        Id([0u8; 32])
    }
}

impl Default for Id {
    fn default() -> (id: Self)
        ensures
            id.0@ == zero_digest(),
    {
        Id::test()
    }
}

impl Commitment {
    /// The digest made of zero bytes only.
    pub fn test() -> (digest: Self)
        ensures
            digest.0@ == zero_digest(),
    {
        Commitment([0u8; 32])
    }
}

impl Default for Commitment {
    fn default() -> (digest: Self)
        ensures
            digest.0@ == zero_digest(),
    {
        Commitment::test()
    }
}

} // verus!
