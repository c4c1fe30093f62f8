use witnet_wire::builders::CAPABILITIES;
use witnet_wire::builders::PROTOCOL_VERSION;
use witnet_wire::builders::USER_AGENT;
use witnet_wire::chain::transaction_example;
use witnet_wire::chain::BlockHeader;
use witnet_wire::chain::CheckpointBeacon;
use witnet_wire::chain::InventoryEntry;
use witnet_wire::chain::LeadershipProof;
use witnet_wire::chain::Transaction;
use witnet_wire::types::Address;
use witnet_wire::chain::Block;
use witnet_wire::types::Command;
use witnet_wire::types::GetPeers;
use witnet_wire::types::InventoryAnnouncement;
use witnet_wire::types::InventoryRequest;
use witnet_wire::types::LastBeacon;
use witnet_wire::types::Message;
use witnet_wire::types::Peers;
use witnet_wire::types::Ping;
use witnet_wire::types::Pong;
use witnet_wire::types::Verack;
use witnet_wire::types::Version;

#[test]
fn builders_build_last_beacon() {
    let highest_block_checkpoint = CheckpointBeacon::default();
    let msg = Message {
        kind: Command::LastBeacon(LastBeacon {
            highest_block_checkpoint,
        }),
        magic: 0xABCD,
    };
    assert_eq!(
        msg,
        Message::build_last_beacon(0xABCD, highest_block_checkpoint)
    );
}

#[test]
fn builders_build_block() {
    // Prepare block header
    let block_header = BlockHeader {
        version: 0x0000_0001,
        beacon: CheckpointBeacon::default(),
        hash_merkle_root: witnet_wire::chain::Hash::default(),
    };
    let block_proof = LeadershipProof::default();

    let txns: Vec<Transaction> = vec![transaction_example()];

    // Expected message
    let msg = Message {
        kind: Command::Block(Block {
            block_header: block_header.clone(),
            proof: LeadershipProof::default(),
            txns: txns.clone(),
        }),
        magic: 0xABCD,
    };

    // Check that the build_block function builds the expected message
    assert_eq!(
        msg,
        Message::build_block(0xABCD, block_header, block_proof, txns)
    );
}

#[test]
fn builders_build_transaction() {
    let txn = transaction_example();

    // Expected message
    let msg = Message {
        kind: Command::Transaction(txn.clone()),
        magic: 0xABCD,
    };

    // Check that the build_transaction function builds the expected message
    assert_eq!(msg, Message::build_transaction(0xABCD, txn));
}

#[test]
fn builders_build_get_peers() {
    // Expected message
    let msg = Message {
        kind: Command::GetPeers(GetPeers),
        magic: 0xABCD,
    };

    // Check that the build_get_peers function builds the expected message
    assert_eq!(msg, Message::build_get_peers(0xABCD));
}

#[test]
fn builders_build_peers() {
    // Expected message
    let mut addresses = Vec::new();
    let address: Address = Address {
        ip: witnet_wire::types::IpAddress::Ipv4 { ip: 3232235777 },
        port: 8000,
    };
    addresses.push(address);
    let msg = Message {
        kind: Command::Peers(Peers {
            peers: addresses.clone(),
        }),
        magic: 0xABCD,
    };

    // The address list stands for the parsed form of "192.168.1.1:8000".
    // Check that the build_peers function builds the expected message
    assert_eq!(msg, Message::build_peers(0xABCD, addresses));
}

#[test]
fn builders_build_ping() {
    // Expected message
    let msg = Message {
        kind: Command::Ping(Ping { nonce: 1234 }),
        magic: 0xABCD,
    };

    // Build message
    let built_msg = Message::build_ping(0xABCD, 1234);

    // Check that the build_ping function builds the expected message
    assert_eq!(built_msg.magic, msg.magic);
    match built_msg.kind {
        Command::Ping(Ping { nonce: _ }) => assert!(true),
        _ => assert!(false, "Expected ping, found another type"),
    };
}

#[test]
fn builders_build_pong() {
    // Expected message
    let nonce = 1234;
    let msg = Message {
        kind: Command::Pong(Pong { nonce }),
        magic: 0xABCD,
    };

    // Check that the build_pong function builds the expected message
    assert_eq!(msg, Message::build_pong(0xABCD, nonce));
}

#[test]
fn builders_build_version() {
    // Expected message (nonce and timestamp are injected by the caller)
    let hardcoded_last_epoch = 1234;
    let sender_addr = Address {
        ip: witnet_wire::types::IpAddress::Ipv4 { ip: 3232235777 },
        port: 8000,
    };
    let receiver_addr = Address {
        ip: witnet_wire::types::IpAddress::Ipv4 { ip: 3232235778 },
        port: 8001,
    };
    let version_cmd = Command::Version(Version {
        version: PROTOCOL_VERSION,
        timestamp: 1234,
        capabilities: CAPABILITIES,
        sender_address: sender_addr,
        receiver_address: receiver_addr,
        user_agent: USER_AGENT.to_string(),
        last_epoch: hardcoded_last_epoch,
        nonce: 1234,
    });
    let msg = Message {
        kind: version_cmd,
        magic: 0xABCD,
    };

    // Build message; the addresses stand for the parsed forms of
    // "192.168.1.1:8000" and "192.168.1.2:8001".
    let built_msg = Message::build_version(
        0xABCD,
        sender_addr,
        receiver_addr,
        hardcoded_last_epoch,
        1234,
        1234,
    );

    // Check that the build_version function builds the expected message
    assert_eq!(built_msg.magic, msg.magic);
    match &built_msg.kind {
        Command::Version(Version {
            version,
            timestamp: _,
            capabilities,
            sender_address,
            receiver_address,
            user_agent,
            last_epoch,
            nonce: _,
        }) if *version == PROTOCOL_VERSION
            && *capabilities == CAPABILITIES
            && *sender_address == sender_addr
            && *receiver_address == receiver_addr
            && user_agent.as_str() == USER_AGENT
            && *last_epoch == hardcoded_last_epoch =>
        {
            assert!(true)
        }
        _ => assert!(false, "Some field/s do not match the expected value"),
    };
}

#[test]
fn builders_build_verack() {
    // Expected message
    let msg = Message {
        kind: Command::Verack(Verack),
        magic: 0xABCD,
    };

    // Check that the build_verack function builds the expected message
    assert_eq!(msg, Message::build_verack(0xABCD));
}

#[test]
fn builders_build_inventory_announcement() {
    // Inventory elements
    let inv_item_1 = InventoryEntry::Tx(witnet_wire::chain::Hash::SHA256([1; 32]));
    let inv_item_2 = InventoryEntry::Block(witnet_wire::chain::Hash::SHA256([2; 32]));
    let inventory = vec![inv_item_1, inv_item_2];

    // InventoryAnnouncement command
    let inv_cmd = Command::InventoryAnnouncement(InventoryAnnouncement {
        inventory: inventory.clone(),
    });

    // InventoryAnnouncement message
    let msg = Message {
        kind: inv_cmd,
        magic: 0xABCD,
    };

    // Check that the build_inventory_announcement function builds the expected message
    assert_eq!(
        msg,
        Message::build_inventory_announcement(0xABCD, inventory).unwrap()
    );
}

#[test]
fn builders_build_inventory_request() {
    // Inventory elements
    let inv_item_1 = InventoryEntry::Tx(witnet_wire::chain::Hash::SHA256([1; 32]));
    let inv_item_2 = InventoryEntry::Block(witnet_wire::chain::Hash::SHA256([2; 32]));
    let inventory = vec![inv_item_1, inv_item_2];

    // InventoryRequest command
    let inv_req_cmd = Command::InventoryRequest(InventoryRequest {
        inventory: inventory.clone(),
    });

    // Inventory message
    let msg = Message {
        kind: inv_req_cmd,
        magic: 0xABCD,
    };

    // Check that the build_inv function builds the expected message
    assert_eq!(
        msg,
        Message::build_inventory_request(0xABCD, inventory).unwrap()
    );
}

#[test]
fn builders_build_peers_with_no_addresses() {
    let msg = Message {
        kind: Command::Peers(Peers { peers: Vec::new() }),
        magic: 0xABCD,
    };
    assert_eq!(msg, Message::build_peers(0xABCD, Vec::new()));
}

#[test]
fn builders_inventory_pair_differs_only_in_tag() {
    // The same ordered entry list through both inventory builders yields
    // messages that differ only in the command tag, both preserving order.
    let inventory = vec![
        InventoryEntry::Tx(witnet_wire::chain::Hash::SHA256([7; 32])),
        InventoryEntry::Block(witnet_wire::chain::Hash::SHA256([9; 32])),
        InventoryEntry::Tx(witnet_wire::chain::Hash::SHA256([11; 32])),
    ];
    let ann = Message::build_inventory_announcement(0xABCD, inventory.clone()).unwrap();
    let req = Message::build_inventory_request(0xABCD, inventory.clone()).unwrap();

    assert_eq!(ann.magic, req.magic);
    let ann_entries = match ann.kind {
        Command::InventoryAnnouncement(InventoryAnnouncement { inventory }) => inventory,
        _ => panic!("expected an inventory announcement"),
    };
    let req_entries = match req.kind {
        Command::InventoryRequest(InventoryRequest { inventory }) => inventory,
        _ => panic!("expected an inventory request"),
    };
    assert_eq!(ann_entries, inventory);
    assert_eq!(req_entries, inventory);
}
