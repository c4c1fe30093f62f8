//! The intermediate wire-struct representation.
//!
//! These structs mirror, field for field, the low-level message types of the
//! external binary schema that the conversion layer writes to and reads
//! from. They hold raw bytes and wide integers; all invariants (exact byte
//! lengths, integer ranges) are enforced by the conversions in
//! [`crate::proto`], not here.

use vstd::prelude::*;

verus! {

/// The wire form of a peer address: 6 raw bytes for IPv4, 18 for IPv6.
#[derive(Clone, PartialEq, Eq, Debug)]
pub struct Address {
    /// Address bytes, big-endian, followed by two big-endian port bytes.
    pub address: Vec<u8>,
}

/// The wire form of a secp256k1 signature.
#[derive(Clone, PartialEq, Eq, Debug)]
pub struct Secp256k1Signature {
    /// The `r` component: exactly 32 bytes when valid.
    pub r: Vec<u8>,
    /// The `s` component followed by the recovery byte: exactly 33 bytes
    /// when valid.
    pub s: Vec<u8>,
}

/// The wire form of a signature: a tagged union with one scheme today. An
/// absent tag is an unrecognized scheme and is rejected on decoding.
#[derive(Clone, PartialEq, Eq, Debug)]
pub struct SignatureWire {
    /// The signature scheme actually carried, if any.
    pub kind: Option<Secp256k1Signature>,
}

/// The wire form of a leadership proof.
#[derive(Clone, PartialEq, Eq, Debug)]
pub struct LeadershipProof {
    /// The optional block signature.
    pub block_sig: Option<SignatureWire>,
    /// The claimed influence.
    pub influence: u64,
}

/// The wire form of a data-request resolution method tag.
#[derive(Clone, Copy, PartialEq, Eq, Debug)]
pub enum RadType {
    /// Resolution through an HTTP GET request.
    HttpGet,
}

} // verus!
