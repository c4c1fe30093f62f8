//! Wire encoding and message construction for a blockchain peer-to-peer
//! protocol.
//!
//! The crate converts strongly typed domain values (addresses, signatures,
//! blocks, transactions, handshake data) into their fixed binary wire
//! representation and back, builds the typed protocol messages exchanged
//! between peers, and owns the ECDSA sign/verify primitive used to
//! authenticate leadership proofs and transactions.

pub mod builders;
pub mod chain;
pub mod codec;
pub mod proto;
pub mod signature;
pub mod types;
pub mod wire;
