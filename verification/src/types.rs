//! The message envelope, the command sum type and its payloads.

use vstd::prelude::*;

use crate::chain::Block;
use crate::chain::CheckpointBeacon;
use crate::chain::Epoch;
use crate::chain::InventoryEntry;
use crate::chain::Transaction;

verus! {

/// An IP address, either version 4 or version 6.
#[derive(Clone, Copy, PartialEq, Eq, Debug)]
pub enum IpAddress {
    /// A version 4 address.
    Ipv4 {
        /// The four address bytes, most significant first.
        ip: u32,
    },
    /// A version 6 address.
    Ipv6 {
        /// The most significant four address bytes.
        ip0: u32,
        /// The next four address bytes.
        ip1: u32,
        /// The next four address bytes.
        ip2: u32,
        /// The least significant four address bytes.
        ip3: u32,
    },
}

/// A peer address: an IP address and a port.
#[derive(Clone, Copy, PartialEq, Eq, Debug)]
pub struct Address {
    /// The IP address.
    pub ip: IpAddress,
    /// The port.
    pub port: u16,
}

/// The outer envelope of every protocol message: a network identifier and a
/// command.
#[derive(Clone, PartialEq, Eq, Debug)]
pub struct Message {
    /// The command and its payload.
    pub kind: Command,
    /// The network identifier, copied verbatim between peers.
    pub magic: u16,
}

/// The closed set of protocol message payload kinds exchanged between peers.
#[derive(Clone, PartialEq, Eq, Debug)]
pub enum Command {
    /// A handshake opening.
    Version(Version),
    /// A handshake acknowledgement.
    Verack(Verack),
    /// A request for known peer addresses.
    GetPeers(GetPeers),
    /// A list of known peer addresses.
    Peers(Peers),
    /// A keep-alive request.
    Ping(Ping),
    /// A keep-alive response.
    Pong(Pong),
    /// A full block.
    Block(Block),
    /// An announcement of inventory items a peer holds.
    InventoryAnnouncement(InventoryAnnouncement),
    /// A request for inventory items.
    InventoryRequest(InventoryRequest),
    /// The tip of the chain known to a peer.
    LastBeacon(LastBeacon),
    /// A transaction.
    Transaction(Transaction),
}

/// The payload of a handshake opening.
#[derive(Clone, PartialEq, Eq, Debug)]
pub struct Version {
    /// The protocol version the sender speaks.
    pub version: u32,
    /// The sender's wall-clock time when the message was built.
    pub timestamp: i64,
    /// The sender's capabilities bitmask.
    pub capabilities: u64,
    /// The sender's own address.
    pub sender_address: Address,
    /// The address the sender believes it is talking to.
    pub receiver_address: Address,
    /// The sender's user agent.
    pub user_agent: String,
    /// The last epoch the sender knows a block for.
    pub last_epoch: Epoch,
    /// A nonce correlating the handshake.
    pub nonce: u64,
}

/// The payload of a handshake acknowledgement; it carries nothing.
#[derive(Clone, Copy, PartialEq, Eq, Debug)]
pub struct Verack;

/// The payload of a peer-address request; it carries nothing.
#[derive(Clone, Copy, PartialEq, Eq, Debug)]
pub struct GetPeers;

/// The payload of a peer-address list.
#[derive(Clone, PartialEq, Eq, Debug)]
pub struct Peers {
    /// The addresses, in the order they were supplied.
    pub peers: Vec<Address>,
}

/// The payload of a keep-alive request.
#[derive(Clone, Copy, PartialEq, Eq, Debug)]
pub struct Ping {
    /// A nonce correlating request and response.
    pub nonce: u64,
}

/// The payload of a keep-alive response.
#[derive(Clone, Copy, PartialEq, Eq, Debug)]
pub struct Pong {
    /// The nonce echoed from the request.
    pub nonce: u64,
}

/// The payload of an inventory announcement.
#[derive(Clone, PartialEq, Eq, Debug)]
pub struct InventoryAnnouncement {
    /// The announced items, in the order they were supplied.
    pub inventory: Vec<InventoryEntry>,
}

/// The payload of an inventory request.
#[derive(Clone, PartialEq, Eq, Debug)]
pub struct InventoryRequest {
    /// The requested items, in the order they were supplied.
    pub inventory: Vec<InventoryEntry>,
}

/// The payload announcing the tip of the chain known to a peer.
#[derive(Clone, Copy, PartialEq, Eq, Debug)]
pub struct LastBeacon {
    /// The highest checkpoint the peer has a block for.
    pub highest_block_checkpoint: CheckpointBeacon,
}

} // verus!
