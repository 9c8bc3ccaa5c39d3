use bitnun::network::P2PNetwork;

#[test]
fn new_node_has_no_peers() {
    let node = P2PNetwork::new("node-1");
    assert_eq!(node.node_id, "node-1");
    assert!(node.peers.is_empty());
    assert_eq!(node.max_peers, 50);
    assert!(!node.is_bootstrapping);
    assert_eq!(
        node.bootstrap_peers,
        vec![
            "wss://bitnun-bootstrap-1.replit.app/ws".to_string(),
            "wss://bitnun-bootstrap-2.replit.app/ws".to_string(),
        ]
    );
    let stats = node.get_network_stats();
    assert_eq!(stats.node_id, "node-1");
    assert_eq!(stats.connected_peers, 0);
    assert_eq!(stats.validator_peers, 0);
    assert_eq!(stats.average_reputation, 0);
}

#[test]
fn bootstrap_adds_five_peers() {
    let mut node = P2PNetwork::new("node-1");
    node.start_networking(1234);
    assert!(!node.is_bootstrapping);
    assert_eq!(node.peers.len(), 5);
    for (i, peer) in node.peers.iter().enumerate() {
        assert_eq!(peer.peer_id, format!("peer_{}", i));
        assert_eq!(peer.websocket, Some(format!("wss://peer-{}.bitnun.network/ws", i)));
        assert_eq!(peer.last_seen, 1234);
        assert_eq!(peer.reputation, 800_000 + 50_000 * i as u64);
        assert_eq!(peer.is_validator, i < 3);
    }
    let stats = node.get_network_stats();
    assert_eq!(stats.connected_peers, 5);
    assert_eq!(stats.validator_peers, 3);
    assert_eq!(stats.average_reputation, 900_000);
    assert!(!stats.is_bootstrapping);
}

#[test]
fn bootstrap_replaces_peers_of_the_same_name() {
    let mut node = P2PNetwork::new("node-1");
    assert!(node.connect_to_peer("wss://x", "peer_3", 5));
    node.start_networking(1234);
    assert_eq!(node.peers.len(), 5);
    assert_eq!(node.peers[0].peer_id, "peer_3");
    assert_eq!(node.peers[0].reputation, 950_000);
    assert_eq!(node.peers[0].last_seen, 1234);
    node.start_networking(2000);
    assert_eq!(node.peers.len(), 5);
    assert_eq!(node.peers[1].last_seen, 2000);
}

#[test]
fn connecting_adds_a_peer_with_full_reputation() {
    let mut node = P2PNetwork::new("node-1");
    assert!(node.connect_to_peer("wss://a", "a", 10));
    assert!(node.connect_to_peer("wss://b", "b", 20));
    assert_eq!(node.peers.len(), 2);
    assert_eq!(node.peers[1].peer_id, "b");
    assert_eq!(node.peers[1].websocket, Some("wss://b".to_string()));
    assert_eq!(node.peers[1].last_seen, 20);
    assert_eq!(node.peers[1].reputation, 1_000_000);
    assert!(!node.peers[1].is_validator);
    assert!(node.connect_to_peer("wss://a2", "a", 30));
    assert_eq!(node.peers.len(), 2);
    assert_eq!(node.peers[0].websocket, Some("wss://a2".to_string()));
}

#[test]
fn connecting_is_rejected_when_the_table_is_full() {
    let mut node = P2PNetwork::new("node-1");
    node.max_peers = 2;
    assert!(node.connect_to_peer("wss://a", "a", 10));
    assert!(node.connect_to_peer("wss://b", "b", 10));
    assert!(!node.connect_to_peer("wss://c", "c", 10));
    assert!(!node.connect_to_peer("wss://a2", "a", 10));
    assert_eq!(node.peers.len(), 2);
    assert_eq!(node.peers[0].websocket, Some("wss://a".to_string()));
}

#[test]
fn handshake_names_version_and_capabilities() {
    let node = P2PNetwork::new("node \"1\"");
    let message = node.handshake("peer-a", 77);
    assert_eq!(message.message_type, "handshake");
    assert_eq!(message.from, "node \"1\"");
    assert_eq!(message.to, "peer-a");
    assert_eq!(message.timestamp, 77);
    assert_eq!(
        message.data,
        "{\"node_id\":\"node \\\"1\\\"\",\"version\":\"1.0.0\",\"capabilities\":\
         [\"proof_of_action\",\"smart_contracts\",\"nft_support\"],\"best_block\":0}"
    );
    let parsed: serde_json::Value = serde_json::from_str(&message.data).unwrap();
    assert_eq!(parsed["node_id"].as_str(), Some("node \"1\""));
    assert_eq!(parsed["best_block"].as_u64(), Some(0));
}

#[test]
fn broadcast_goes_to_peers_with_a_connection() {
    let mut node = P2PNetwork::new("node-1");
    node.connect_to_peer("wss://a", "a", 10);
    node.connect_to_peer("wss://b", "b", 10);
    node.connect_to_peer("wss://c", "c", 10);
    node.peers[1].websocket = None;
    let broadcast = node.broadcast_message("note", "hello", 99);
    assert_eq!(broadcast.message.message_type, "note");
    assert_eq!(broadcast.message.from, "node-1");
    assert_eq!(broadcast.message.to, "broadcast");
    assert_eq!(broadcast.message.data, "hello");
    assert_eq!(broadcast.message.timestamp, 99);
    assert_eq!(broadcast.recipients, vec!["a".to_string(), "c".to_string()]);
    assert!(P2PNetwork::new("x").broadcast_message("note", "hello", 1).recipients.is_empty());
}

#[test]
fn transactions_blocks_and_sync_requests_are_broadcast() {
    let mut node = P2PNetwork::new("node-1");
    node.start_networking(0);
    let sent = node.send_transaction("tx-data", 5);
    assert_eq!(sent.message.message_type, "transaction");
    assert_eq!(sent.message.data, "tx-data");
    assert_eq!(sent.recipients.len(), 5);
    let sent = node.send_block("block-data", 6);
    assert_eq!(sent.message.message_type, "block");
    assert_eq!(sent.message.data, "block-data");
    let sent = node.request_sync(7);
    assert_eq!(sent.message.message_type, "sync_request");
    assert_eq!(sent.message.data, "node-1");
    assert_eq!(sent.message.timestamp, 7);
}

#[test]
fn average_reputation_is_rounded_down() {
    let mut node = P2PNetwork::new("node-1");
    node.connect_to_peer("wss://a", "a", 10);
    node.connect_to_peer("wss://b", "b", 10);
    node.connect_to_peer("wss://c", "c", 10);
    node.peers[0].reputation = 1;
    node.peers[1].reputation = 1;
    node.peers[2].reputation = 0;
    node.peers[2].is_validator = true;
    let stats = node.get_network_stats();
    assert_eq!(stats.average_reputation, 0);
    assert_eq!(stats.validator_peers, 1);
    node.peers[2].reputation = u64::MAX;
    node.peers[1].reputation = u64::MAX;
    node.peers[0].reputation = u64::MAX;
    assert_eq!(node.get_network_stats().average_reputation, u64::MAX);
}
