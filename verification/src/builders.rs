//! One builder per protocol command.
//!
//! Each builder is a pure, single-shot function from caller-supplied
//! arguments to a well-formed [`Message`]. Nonces and timestamps are
//! injected by the caller, so message construction is deterministic and
//! testable without a hidden clock or random source.

use vstd::prelude::*;

use crate::chain::BlockHeader;
use crate::chain::CheckpointBeacon;
use crate::chain::Epoch;
use crate::chain::InventoryEntry;
use crate::chain::LeadershipProof;
use crate::chain::Transaction;
use crate::types::Address;
use crate::types::Command;
use crate::types::GetPeers;
use crate::types::InventoryAnnouncement;
use crate::types::InventoryRequest;
use crate::types::LastBeacon;
use crate::types::Message;
use crate::types::Peers;
use crate::types::Ping;
use crate::types::Pong;
use crate::types::Verack;
use crate::types::Version;
use crate::chain::Block;
use vstd::string::StringExecFns;

verus! {

/// The protocol version stamped into handshake messages.
pub const PROTOCOL_VERSION: u32 = 1;

/// The capabilities bitmask stamped into handshake messages.
pub const CAPABILITIES: u64 = 1;

/// The user agent stamped into handshake messages.
pub const USER_AGENT: &'static str = "full-node";

/// The error type for builders whose arguments may not be representable in
/// a message. No argument is rejected today; the type is the extension
/// point for inventory entry kinds a future wire format cannot carry.
#[derive(Clone, Copy, PartialEq, Eq, Debug)]
pub enum BuilderError {
    /// An inventory entry cannot be represented in the message.
    UnsupportedEntry,
}

impl Message {
    /// Builds a `Version` handshake message. The timestamp and nonce are
    /// supplied by the caller; version, capabilities and user agent come
    /// from the protocol constants.
    pub fn build_version(
        magic: u16,
        sender_address: Address,
        receiver_address: Address,
        last_epoch: Epoch,
        timestamp: i64,
        nonce: u64,
    ) -> (r: Message)
        ensures
            r.magic == magic,
            r.kind matches Command::Version(p) && p.version == PROTOCOL_VERSION && p.timestamp
                == timestamp && p.capabilities == CAPABILITIES && p.sender_address
                == sender_address && p.receiver_address == receiver_address && p.user_agent@
                == USER_AGENT@ && p.last_epoch == last_epoch && p.nonce == nonce,
    {
        Message {
            kind: Command::Version(
                Version {
                    version: PROTOCOL_VERSION,
                    timestamp,
                    capabilities: CAPABILITIES,
                    sender_address,
                    receiver_address,
                    user_agent: <String as StringExecFns>::from_str(USER_AGENT),
                    last_epoch,
                    nonce,
                },
            ),
            magic,
        }
    }

    /// Builds a `Verack` handshake acknowledgement.
    pub fn build_verack(magic: u16) -> (r: Message)
        ensures
            r.magic == magic,
            r.kind == Command::Verack(Verack),
    {
        Message { kind: Command::Verack(Verack), magic }
    }

    /// Builds a `GetPeers` message.
    pub fn build_get_peers(magic: u16) -> (r: Message)
        ensures
            r.magic == magic,
            r.kind == Command::GetPeers(GetPeers),
    {
        Message { kind: Command::GetPeers(GetPeers), magic }
    }

    /// Builds a `Peers` message carrying the given addresses, in order.
    pub fn build_peers(magic: u16, peers: Vec<Address>) -> (r: Message)
        ensures
            r.magic == magic,
            r.kind matches Command::Peers(p) && p.peers == peers,
    {
        Message { kind: Command::Peers(Peers { peers }), magic }
    }

    /// Builds a `Ping` message carrying the given nonce.
    pub fn build_ping(magic: u16, nonce: u64) -> (r: Message)
        ensures
            r.magic == magic,
            r.kind == Command::Ping(Ping { nonce }),
    {
        Message { kind: Command::Ping(Ping { nonce }), magic }
    }

    /// Builds a `Pong` message echoing the given nonce.
    pub fn build_pong(magic: u16, nonce: u64) -> (r: Message)
        ensures
            r.magic == magic,
            r.kind == Command::Pong(Pong { nonce }),
    {
        Message { kind: Command::Pong(Pong { nonce }), magic }
    }

    /// Builds a `Block` message from a header, a leadership proof and the
    /// block's transactions.
    pub fn build_block(
        magic: u16,
        block_header: BlockHeader,
        block_proof: LeadershipProof,
        txns: Vec<Transaction>,
    ) -> (r: Message)
        ensures
            r.magic == magic,
            r.kind matches Command::Block(b) && b.block_header == block_header && b.proof
                == block_proof && b.txns == txns,
    {
        Message {
            kind: Command::Block(Block { block_header, proof: block_proof, txns }),
            magic,
        }
    }

    /// Builds a `Transaction` message.
    pub fn build_transaction(magic: u16, txn: Transaction) -> (r: Message)
        ensures
            r.magic == magic,
            r.kind == Command::Transaction(txn),
    {
        Message { kind: Command::Transaction(txn), magic }
    }

    /// Builds an `InventoryAnnouncement` message carrying the given
    /// entries, in order. Every entry kind known today is representable, so
    /// the builder always succeeds.
    pub fn build_inventory_announcement(magic: u16, inventory: Vec<InventoryEntry>) -> (r: Result<
        Message,
        BuilderError,
    >)
        ensures
            r is Ok,
            r matches Ok(m) && m.magic == magic && (m.kind matches Command::InventoryAnnouncement(
                p,
            ) && p.inventory == inventory),
    {
        Ok(
            Message {
                kind: Command::InventoryAnnouncement(InventoryAnnouncement { inventory }),
                magic,
            },
        )
    }

    /// Builds an `InventoryRequest` message carrying the given entries, in
    /// order. Every entry kind known today is representable, so the builder
    /// always succeeds.
    pub fn build_inventory_request(magic: u16, inventory: Vec<InventoryEntry>) -> (r: Result<
        Message,
        BuilderError,
    >)
        ensures
            r is Ok,
            r matches Ok(m) && m.magic == magic && (m.kind matches Command::InventoryRequest(p)
                && p.inventory == inventory),
    {
        Ok(Message { kind: Command::InventoryRequest(InventoryRequest { inventory }), magic })
    }

    /// Builds a `LastBeacon` message announcing the given checkpoint.
    pub fn build_last_beacon(magic: u16, highest_block_checkpoint: CheckpointBeacon) -> (r:
        Message)
        ensures
            r.magic == magic,
            r.kind == Command::LastBeacon(LastBeacon { highest_block_checkpoint }),
    {
        Message { kind: Command::LastBeacon(LastBeacon { highest_block_checkpoint }), magic }
    }
}

} // verus!
