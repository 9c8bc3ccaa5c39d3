//! The peer table of the node and the messages it hands to the transport.
//!
//! The node itself sends nothing: it decides what is to be sent and to
//! whom, and the transport around it does the sending.

use crate::bounds::lemma_total_has_room;
use crate::json::{json_string, json_string_text};
use crate::keyed::{find, keys_of, position_of, Keyed};
use crate::text::{decimal_string, decimal_text, texts};
use vstd::prelude::*;
use vstd::string::*;

verus! {

/// The largest number of peers of a new node.
pub const DEFAULT_MAX_PEERS: usize = 50;

/// The number of peers that a bootstrap adds.
pub const BOOTSTRAP_PEER_COUNT: u64 = 5;

/// The number of bootstrap peers, counted from the first, that are
/// validators.
pub const BOOTSTRAP_VALIDATOR_COUNT: u64 = 3;

/// A connected peer. `last_seen` is in milliseconds, `reputation` in
/// millionths.
pub struct PeerConnection {
    pub peer_id: String,
    pub websocket: Option<String>,
    pub last_seen: u64,
    pub reputation: u64,
    pub is_validator: bool,
}

/// What a peer record holds, as plain mathematical values.
pub struct PeerView {
    pub peer_id: Seq<char>,
    pub websocket: Option<Seq<char>>,
    pub last_seen: nat,
    pub reputation: nat,
    pub is_validator: bool,
}

impl View for PeerConnection {
    type V = PeerView;

    open spec fn view(&self) -> PeerView {
        PeerView {
            peer_id: self.peer_id@,
            websocket: match self.websocket {
                Some(url) => Some(url@),
                None => None,
            },
            last_seen: self.last_seen as nat,
            reputation: self.reputation as nat,
            is_validator: self.is_validator,
        }
    }
}

impl Keyed for PeerConnection {
    open spec fn key(&self) -> Seq<char> {
        self.peer_id@
    }

    fn key_text(&self) -> (text: &String) {
        &self.peer_id
    }
}

/// The views of a sequence of peers, in order.
pub open spec fn peer_views(peers: Seq<PeerConnection>) -> Seq<PeerView> {
    peers.map_values(|p: PeerConnection| p@)
}

/// The identifiers of a sequence of peers, in order.
pub open spec fn peer_ids(peers: Seq<PeerView>) -> Seq<Seq<char>> {
    peers.map_values(|p: PeerView| p.peer_id)
}

/// The node: its identifier, its peers in the order in which they were
/// first connected, and the addresses it bootstraps from.
pub struct P2PNetwork {
    pub node_id: String,
    pub peers: Vec<PeerConnection>,
    pub max_peers: usize,
    pub is_bootstrapping: bool,
    pub bootstrap_peers: Vec<String>,
}

/// What the node holds, as plain mathematical values.
pub struct NodeView {
    pub node_id: Seq<char>,
    pub peers: Seq<PeerView>,
    pub max_peers: nat,
    pub is_bootstrapping: bool,
    pub bootstrap_peers: Seq<Seq<char>>,
}

impl View for P2PNetwork {
    type V = NodeView;

    open spec fn view(&self) -> NodeView {
        NodeView {
            node_id: self.node_id@,
            peers: peer_views(self.peers@),
            max_peers: self.max_peers as nat,
            is_bootstrapping: self.is_bootstrapping,
            bootstrap_peers: texts(self.bootstrap_peers@),
        }
    }
}

/// A message for the transport. `timestamp` is in milliseconds.
pub struct NetworkMessage {
    pub message_type: String,
    pub from: String,
    pub to: String,
    pub data: String,
    pub timestamp: u64,
}

/// What a message holds, as plain mathematical values.
pub struct MessageView {
    pub message_type: Seq<char>,
    pub from: Seq<char>,
    pub to: Seq<char>,
    pub data: Seq<char>,
    pub timestamp: nat,
}

impl View for NetworkMessage {
    type V = MessageView;

    open spec fn view(&self) -> MessageView {
        MessageView {
            message_type: self.message_type@,
            from: self.from@,
            to: self.to@,
            data: self.data@,
            timestamp: self.timestamp as nat,
        }
    }
}

/// A message together with the peers that are to receive it.
pub struct Broadcast {
    pub message: NetworkMessage,
    pub recipients: Vec<String>,
}

/// The figures that describe the node. The average is in millionths.
pub struct NetworkStats {
    pub node_id: String,
    pub connected_peers: usize,
    pub validator_peers: usize,
    pub is_bootstrapping: bool,
    pub average_reputation: u64,
}

/// The peers after `peer` connected: a record with the same identifier is
/// replaced, otherwise the new one comes last.
pub open spec fn with_peer(peers: Seq<PeerView>, peer: PeerView) -> Seq<PeerView> {
    match position_of(peer_ids(peers), peer.peer_id) {
        Some(i) => peers.update(i, peer),
        None => peers.push(peer),
    }
}

/// A peer as it connects through `url` at `now`.
pub open spec fn connected_peer(peer_id: Seq<char>, url: Seq<char>, now: nat) -> PeerView {
    PeerView {
        peer_id,
        websocket: Some(url),
        last_seen: now,
        reputation: 1_000_000,
        is_validator: false,
    }
}

/// The bootstrap peer number `i`, seen at `now`: its reputation starts at
/// 0.8 and rises by 0.05 with each number, and the first three are
/// validators.
pub open spec fn bootstrap_peer(i: nat, now: nat) -> PeerView {
    PeerView {
        peer_id: "peer_"@ + decimal_text(i),
        websocket: Some("wss://peer-"@ + decimal_text(i) + ".bitnun.network/ws"@),
        last_seen: now,
        reputation: 800_000 + 50_000 * i,
        is_validator: i < BOOTSTRAP_VALIDATOR_COUNT,
    }
}

/// The peers after the bootstrap peers with a number below `count` were
/// added.
pub open spec fn bootstrapped(peers: Seq<PeerView>, count: nat, now: nat) -> Seq<PeerView>
    decreases count,
{
    if count == 0 {
        peers
    } else {
        with_peer(
            bootstrapped(peers, (count - 1) as nat, now),
            bootstrap_peer((count - 1) as nat, now),
        )
    }
}

/// The data of the handshake of the node `node_id`.
pub open spec fn handshake_data(node_id: Seq<char>) -> Seq<char> {
    "{\"node_id\":"@ + json_string_text(node_id)
        + ",\"version\":\"1.0.0\",\"capabilities\":[\"proof_of_action\",\"smart_contracts\",\"nft_support\"],\"best_block\":0}"@
}

/// The handshake that the node `node_id` sends to `peer_id` at `now`.
pub open spec fn handshake_message(node_id: Seq<char>, peer_id: Seq<char>, now: nat) -> MessageView {
    MessageView {
        message_type: "handshake"@,
        from: node_id,
        to: peer_id,
        data: handshake_data(node_id),
        timestamp: now,
    }
}

/// The message that the node `node_id` sends to all peers at `now`.
pub open spec fn broadcast_view(
    node_id: Seq<char>,
    message_type: Seq<char>,
    data: Seq<char>,
    now: nat,
) -> MessageView {
    MessageView { message_type, from: node_id, to: "broadcast"@, data, timestamp: now }
}

/// The identifiers of the peers that have a connection, in order.
pub open spec fn reachable(peers: Seq<PeerView>) -> Seq<Seq<char>>
    decreases peers.len(),
{
    if peers.len() == 0 {
        Seq::empty()
    } else if peers.last().websocket is Some {
        reachable(peers.drop_last()).push(peers.last().peer_id)
    } else {
        reachable(peers.drop_last())
    }
}

/// The number of peers that are validators.
pub open spec fn count_validators(peers: Seq<PeerView>) -> nat
    decreases peers.len(),
{
    if peers.len() == 0 {
        0
    } else {
        count_validators(peers.drop_last()) + if peers.last().is_validator {
            1nat
        } else {
            0nat
        }
    }
}

/// The reputations of all peers together.
pub open spec fn reputation_sum(peers: Seq<PeerView>) -> nat
    decreases peers.len(),
{
    if peers.len() == 0 {
        0
    } else {
        reputation_sum(peers.drop_last()) + peers.last().reputation
    }
}

/// The average reputation of the peers, rounded down: zero without peers.
pub open spec fn average_reputation(peers: Seq<PeerView>) -> nat {
    if peers.len() == 0 {
        0
    } else {
        reputation_sum(peers) / peers.len()
    }
}

impl P2PNetwork {
    /// A node without peers.
    pub fn new(node_id: &str) -> (node: P2PNetwork)
        ensures
            node@ == (NodeView {
                node_id: node_id@,
                peers: Seq::empty(),
                max_peers: DEFAULT_MAX_PEERS as nat,
                is_bootstrapping: false,
                bootstrap_peers: seq![
                    "wss://bitnun-bootstrap-1.replit.app/ws"@,
                    "wss://bitnun-bootstrap-2.replit.app/ws"@,
                ],
            }),
    {
        let mut bootstrap_peers: Vec<String> = Vec::new();
        bootstrap_peers.push(String::from_str("wss://bitnun-bootstrap-1.replit.app/ws"));
        bootstrap_peers.push(String::from_str("wss://bitnun-bootstrap-2.replit.app/ws"));
        let node = P2PNetwork {
            node_id: String::from_str(node_id),
            peers: Vec::new(),
            max_peers: DEFAULT_MAX_PEERS,
            is_bootstrapping: false,
            bootstrap_peers,
        };
        assert(node@.peers =~= Seq::empty());
        assert(node@.bootstrap_peers =~= seq![
            "wss://bitnun-bootstrap-1.replit.app/ws"@,
            "wss://bitnun-bootstrap-2.replit.app/ws"@,
        ]);
        node
    }

    fn put_peer(&mut self, peer: PeerConnection)
        ensures
            final(self)@ == (NodeView { peers: with_peer(old(self)@.peers, peer@), ..old(self)@ }),
    {
        assert(keys_of(self.peers@) =~= peer_ids(self@.peers));
        match find(self.peers.as_slice(), peer.peer_id.as_str()) {
            Some(i) => {
                self.peers.set(i, peer);
                assert(self@.peers =~= old(self)@.peers.update(i as int, peer@));
            },
            None => {
                self.peers.push(peer);
                assert(self@.peers =~= old(self)@.peers.push(peer@));
            },
        }
    }

    /// Starts networking at the time `now`: adds the bootstrap peers.
    pub fn start_networking(&mut self, now: u64)
        ensures
            final(self)@ == (NodeView {
                peers: bootstrapped(old(self)@.peers, BOOTSTRAP_PEER_COUNT as nat, now as nat),
                is_bootstrapping: false,
                ..old(self)@
            }),
    {
        self.is_bootstrapping = true;
        self.simulate_bootstrap(now);
    }

    /// Connects to the peer `peer_id` through `peer_url` at the time `now`,
    /// unless the node has all the peers it may have. The transport then
    /// owes the peer the handshake of [`Self::handshake`]. A rejected
    /// connection changes nothing.
    pub fn connect_to_peer(&mut self, peer_url: &str, peer_id: &str, now: u64) -> (connected: bool)
        ensures
            connected == (old(self)@.peers.len() < old(self)@.max_peers),
            !connected ==> final(self)@ == old(self)@,
            connected ==> final(self)@ == (NodeView {
                peers: with_peer(
                    old(self)@.peers,
                    connected_peer(peer_id@, peer_url@, now as nat),
                ),
                ..old(self)@
            }),
    {
        if self.peers.len() >= self.max_peers {
            return false;
        }
        let peer = PeerConnection {
            peer_id: String::from_str(peer_id),
            websocket: Some(String::from_str(peer_url)),
            last_seen: now,
            reputation: 1_000_000,
            is_validator: false,
        };
        self.put_peer(peer);
        true
    }

    /// The handshake for the peer `peer_id` at the time `now`.
    pub fn handshake(&self, peer_id: &str, now: u64) -> (message: NetworkMessage)
        ensures
            message@ == handshake_message(self@.node_id, peer_id@, now as nat),
    {
        let mut data: String = String::from_str("{\"node_id\":");
        data.append(json_string(self.node_id.as_str()).as_str());
        data.append(
            ",\"version\":\"1.0.0\",\"capabilities\":[\"proof_of_action\",\"smart_contracts\",\"nft_support\"],\"best_block\":0}",
        );
        NetworkMessage {
            message_type: String::from_str("handshake"),
            from: self.node_id.clone(),
            to: String::from_str(peer_id),
            data,
            timestamp: now,
        }
    }

    /// The message of the type `message_type` with the data `data` for all
    /// peers at the time `now`, and the peers that have a connection to
    /// receive it.
    pub fn broadcast_message(&self, message_type: &str, data: &str, now: u64) -> (broadcast:
        Broadcast)
        ensures
            broadcast.message@ == broadcast_view(
                self@.node_id,
                message_type@,
                data@,
                now as nat,
            ),
            texts(broadcast.recipients@) == reachable(self@.peers),
    {
        let message = NetworkMessage {
            message_type: String::from_str(message_type),
            from: self.node_id.clone(),
            to: String::from_str("broadcast"),
            data: String::from_str(data),
            timestamp: now,
        };
        let ghost views = peer_views(self.peers@);
        let mut recipients: Vec<String> = Vec::new();
        let mut i: usize = 0;
        while i < self.peers.len()
            invariant
                i <= self.peers.len(),
                views == peer_views(self.peers@),
                texts(recipients@) == reachable(views.take(i as int)),
            decreases self.peers.len() - i,
        {
            proof {
                assert(views.take(i + 1).drop_last() =~= views.take(i as int));
            }
            if self.send_message_to_peer(i) {
                recipients.push(self.peers[i].peer_id.clone());
            }
            i = i + 1;
        }
        assert(views.take(self.peers.len() as int) =~= views);
        Broadcast { message, recipients }
    }

    /// The broadcast of a transaction.
    pub fn send_transaction(&self, transaction_data: &str, now: u64) -> (broadcast: Broadcast)
        ensures
            broadcast.message@ == broadcast_view(
                self@.node_id,
                "transaction"@,
                transaction_data@,
                now as nat,
            ),
            texts(broadcast.recipients@) == reachable(self@.peers),
    {
        self.broadcast_message("transaction", transaction_data, now)
    }

    /// The broadcast of a block.
    pub fn send_block(&self, block_data: &str, now: u64) -> (broadcast: Broadcast)
        ensures
            broadcast.message@ == broadcast_view(
                self@.node_id,
                "block"@,
                block_data@,
                now as nat,
            ),
            texts(broadcast.recipients@) == reachable(self@.peers),
    {
        self.broadcast_message("block", block_data, now)
    }

    /// The broadcast that asks the peers for their chain.
    pub fn request_sync(&self, now: u64) -> (broadcast: Broadcast)
        ensures
            broadcast.message@ == broadcast_view(
                self@.node_id,
                "sync_request"@,
                self@.node_id,
                now as nat,
            ),
            texts(broadcast.recipients@) == reachable(self@.peers),
    {
        self.broadcast_message("sync_request", self.node_id.as_str(), now)
    }

    /// Whether a message for the peer at `index` can be sent: whether the
    /// peer has a connection.
    fn send_message_to_peer(&self, index: usize) -> (sent: bool)
        requires
            index < self.peers@.len(),
        ensures
            sent == (self@.peers[index as int].websocket is Some),
    {
        self.peers[index].websocket.is_some()
    }

    fn simulate_bootstrap(&mut self, now: u64)
        ensures
            final(self)@ == (NodeView {
                peers: bootstrapped(old(self)@.peers, BOOTSTRAP_PEER_COUNT as nat, now as nat),
                is_bootstrapping: false,
                ..old(self)@
            }),
    {
        let mut i: u64 = 0;
        while i < BOOTSTRAP_PEER_COUNT
            invariant
                i <= BOOTSTRAP_PEER_COUNT,
                self@ == (NodeView {
                    peers: bootstrapped(old(self)@.peers, i as nat, now as nat),
                    is_bootstrapping: self@.is_bootstrapping,
                    ..old(self)@
                }),
            decreases BOOTSTRAP_PEER_COUNT - i,
        {
            let number: String = decimal_string(i);
            let mut peer_id: String = String::from_str("peer_");
            peer_id.append(number.as_str());
            let mut url: String = String::from_str("wss://peer-");
            url.append(number.as_str());
            url.append(".bitnun.network/ws");
            let peer = PeerConnection {
                peer_id,
                websocket: Some(url),
                last_seen: now,
                reputation: 800_000 + 50_000 * i,
                is_validator: i < BOOTSTRAP_VALIDATOR_COUNT,
            };
            self.put_peer(peer);
            i = i + 1;
        }
        self.is_bootstrapping = false;
    }

    /// The figures that describe the node.
    pub fn get_network_stats(&self) -> (stats: NetworkStats)
        ensures
            stats.node_id@ == self@.node_id,
            stats.connected_peers == self@.peers.len(),
            stats.validator_peers == count_validators(self@.peers),
            stats.is_bootstrapping == self@.is_bootstrapping,
            stats.average_reputation == average_reputation(self@.peers),
    {
        let ghost views = peer_views(self.peers@);
        let mut validators: usize = 0;
        let mut total: u128 = 0;
        let mut i: usize = 0;
        while i < self.peers.len()
            invariant
                i <= self.peers.len(),
                views == peer_views(self.peers@),
                validators == count_validators(views.take(i as int)),
                validators <= i,
                total == reputation_sum(views.take(i as int)),
                total <= i * u64::MAX,
            decreases self.peers.len() - i,
        {
            proof {
                assert(views.take(i + 1).drop_last() =~= views.take(i as int));
                lemma_total_has_room(i as nat, u64::MAX as nat);
            }
            if self.peers[i].is_validator {
                validators = validators + 1;
            }
            total = total + self.peers[i].reputation as u128;
            i = i + 1;
        }
        assert(views.take(self.peers.len() as int) =~= views);
        let len: usize = self.peers.len();
        let average: u64 = if len == 0 {
            0
        } else {
            proof {
                assert(total / (len as u128) <= u64::MAX) by (nonlinear_arith)
                    requires
                        total <= len * u64::MAX,
                        len > 0,
                ;
            }
            (total / (len as u128)) as u64
        };
        NetworkStats {
            node_id: self.node_id.clone(),
            connected_peers: len,
            validator_peers: validators,
            is_bootstrapping: self.is_bootstrapping,
            average_reputation: average,
        }
    }
}

} // verus!
