//! Chain domain types: hashes, signatures, leadership proofs, blocks and
//! transactions.

use vstd::prelude::*;

verus! {

/// A protocol epoch number.
pub type Epoch = u32;

/// A hash value.
#[derive(Clone, Copy, PartialEq, Eq, Debug)]
pub enum Hash {
    /// A SHA-256 digest.
    SHA256([u8; 32]),
}

impl Default for Hash {
    /// The all-zero SHA-256 hash.
    fn default() -> (r: Self)
        ensures
            r matches Hash::SHA256(b) && b@ == Seq::<u8>::new(32, |i: int| 0u8),
    {
        let r = Hash::SHA256([0u8; 32]);
        proof {
            let b = r->SHA256_0;
            assert(b@ =~= Seq::<u8>::new(32, |i: int| 0u8));
        }
        r
    }
}

/// A pointer to the tip of the chain known to a peer: an epoch and the hash
/// of its block.
#[derive(Clone, Copy, PartialEq, Eq, Debug)]
pub struct CheckpointBeacon {
    /// The epoch of the checkpoint.
    pub checkpoint: Epoch,
    /// The hash of the block at that checkpoint.
    pub hash_prev_block: Hash,
}

impl Default for CheckpointBeacon {
    /// Epoch zero with the all-zero hash.
    fn default() -> (r: Self)
        ensures
            r.checkpoint == 0,
            r.hash_prev_block matches Hash::SHA256(b) && b@ == Seq::<u8>::new(32, |i: int| 0u8),
    {
        CheckpointBeacon { checkpoint: 0, hash_prev_block: Hash::default() }
    }
}

/// An ECDSA signature over the secp256k1 curve, split into its `r` and `s`
/// components plus the recovery byte `v`.
#[derive(Clone, Copy, PartialEq, Eq, Debug)]
pub struct Secp256k1Signature {
    /// The 32-byte `r` component.
    pub r: [u8; 32],
    /// The 32-byte `s` component.
    pub s: [u8; 32],
    /// The recovery byte.
    pub v: u8,
}

/// A digital signature. A sum type so that a second scheme can be added as a
/// compiler-checked, localized change.
#[derive(Clone, Copy, PartialEq, Eq, Debug)]
pub enum DigitalSignature {
    /// A signature over the secp256k1 curve.
    Secp256k1(Secp256k1Signature),
}

/// The data authorizing a peer to produce a given block, optionally signed.
#[derive(Clone, Copy, PartialEq, Eq, Debug)]
pub struct LeadershipProof {
    /// The block signature; absence is a valid, meaningful state (an
    /// unsigned proof).
    pub block_sig: Option<DigitalSignature>,
    /// The claimed influence.
    pub influence: u64,
}

impl Default for LeadershipProof {
    /// An unsigned proof with zero influence.
    fn default() -> (r: Self)
        ensures
            r.block_sig is None,
            r.influence == 0,
    {
        LeadershipProof { block_sig: None, influence: 0 }
    }
}

/// The resolution method tag for a data-request output.
#[derive(Clone, Copy, PartialEq, Eq, Debug)]
pub enum RADType {
    /// Resolution through an HTTP GET request.
    HttpGet,
}

/// An inventory item identifier, tagged with what the hash refers to.
#[derive(Clone, Copy, PartialEq, Eq, Debug)]
pub enum InventoryEntry {
    /// The hash of a transaction.
    Tx(Hash),
    /// The hash of a block.
    Block(Hash),
}

/// A block header.
#[derive(Clone, Copy, PartialEq, Eq, Debug)]
pub struct BlockHeader {
    /// The protocol version under which the block was produced.
    pub version: u32,
    /// The beacon the block extends.
    pub beacon: CheckpointBeacon,
    /// The Merkle root of the block's transactions.
    pub hash_merkle_root: Hash,
}

/// A transaction.
#[derive(Clone, Copy, PartialEq, Eq, Debug)]
pub struct Transaction {
    /// The transaction format version.
    pub version: u32,
}

/// A sample transaction, as used by message-construction examples and tests.
pub fn transaction_example() -> (r: Transaction)
    ensures
        r.version == 1,
{
    Transaction { version: 1 }
}

/// A block: its header, the leadership proof of its producer, and its
/// transactions.
#[derive(Clone, PartialEq, Eq, Debug)]
pub struct Block {
    /// The block header.
    pub block_header: BlockHeader,
    /// The proof that its producer was eligible.
    pub proof: LeadershipProof,
    /// The transactions the block carries.
    pub txns: Vec<Transaction>,
}

} // verus!
