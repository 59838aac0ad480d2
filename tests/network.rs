use libp2p::identity::Keypair;
use libp2p::kad::store::MemoryStore;
use libp2p::kad::Behaviour;
use libp2p::{Multiaddr, PeerId};
use swarm_chat::address::{external_address, routing_address, IpAddress};
use swarm_chat::credentials::{identity_from_stored, CredentialError};
use swarm_chat::message::{Message, MessageStore};
use swarm_chat::node::{handle_event, NodeSettings, Reaction, SwarmInput};
use swarm_chat::routing::{forget_peer, learn_peer, refresh, supports_dht, RoutingOutcome, KADEMLIA_PROTOCOL};
use swarm_chat::topic::chat_topic_hash;

fn addr(s: &str) -> Multiaddr {
    s.parse().unwrap()
}

fn table() -> Behaviour<MemoryStore> {
    let local = PeerId::random();
    Behaviour::new(local, MemoryStore::new(local))
}

fn settings(cli: Option<IpAddress>, env: Option<IpAddress>) -> NodeSettings {
    NodeSettings { topic_hash: chat_topic_hash(), external_override: cli, env_override: env }
}

const IP_1_2_3_4: u32 = 0x01020304;
const IP_5_6_7_8: u32 = 0x05060708;

#[test]
fn explicit_override_wins() {
    let listen = addr("/ip4/0.0.0.0/udp/9090/webrtc-direct");
    let r = external_address(&listen, Some(IpAddress::V4(IP_1_2_3_4)), Some(IpAddress::V4(IP_5_6_7_8)));
    assert_eq!(r.unwrap().to_string(), "/ip4/1.2.3.4/udp/9090/webrtc-direct");
}

#[test]
fn environment_override_used_without_explicit_one() {
    let listen = addr("/ip4/0.0.0.0/udp/9091/quic-v1");
    let r = external_address(&listen, None, Some(IpAddress::V4(IP_5_6_7_8)));
    assert_eq!(r.unwrap().to_string(), "/ip4/5.6.7.8/udp/9091/quic-v1");
}

#[test]
fn ipv6_override_replaces_first_segment() {
    let listen = addr("/ip4/0.0.0.0/udp/9091/quic-v1");
    let r = external_address(&listen, Some(IpAddress::V6(1)), None);
    assert_eq!(r.unwrap().to_string(), "/ip6/::1/udp/9091/quic-v1");
}

#[test]
fn no_override_registers_nothing() {
    let listen = addr("/ip4/0.0.0.0/udp/9091/quic-v1");
    assert!(external_address(&listen, None, None).is_none());
}

#[test]
fn empty_address_registers_nothing() {
    let listen = Multiaddr::empty();
    assert!(external_address(&listen, Some(IpAddress::V4(IP_1_2_3_4)), None).is_none());
}

#[test]
fn routing_address_appends_transport_and_peer() {
    let peer = PeerId::random();
    let r = routing_address(&addr("/ip4/10.0.0.1/udp/9090"), peer);
    assert_eq!(r.to_string(), format!("/ip4/10.0.0.1/udp/9090/webrtc-direct/p2p/{peer}"));
}

#[test]
fn dht_support_is_detected_by_protocol_name() {
    assert!(supports_dht(&vec!["/ipfs/id/1.0.0".to_string(), KADEMLIA_PROTOCOL.to_string()]));
    assert!(!supports_dht(&vec!["/ipfs/id/1.0.0".to_string(), "/other/kad".to_string()]));
    assert!(!supports_dht(&vec![]));
}

#[test]
fn removing_absent_peer_finds_nothing() {
    let mut kad = table();
    let peer = PeerId::random();
    assert!(!forget_peer(&mut kad, &peer));
    assert!(!forget_peer(&mut kad, &peer));
}

#[test]
fn learned_peer_is_removed_once() {
    let mut kad = table();
    let peer = PeerId::random();
    let learned = learn_peer(
        &mut kad,
        peer,
        &vec![KADEMLIA_PROTOCOL.to_string()],
        &vec![addr("/ip4/10.0.0.1/udp/9090"), addr("/ip4/10.0.0.2/udp/9090")],
    );
    assert_eq!(learned.len(), 2);
    assert_eq!(learned[0].0.to_string(), format!("/ip4/10.0.0.1/udp/9090/webrtc-direct/p2p/{peer}"));
    assert_eq!(learned[1].1, RoutingOutcome::Added);
    assert!(forget_peer(&mut kad, &peer));
    assert!(!forget_peer(&mut kad, &peer));
}

#[test]
fn peer_without_dht_is_not_learned() {
    let mut kad = table();
    let peer = PeerId::random();
    let learned = learn_peer(&mut kad, peer, &vec!["/ipfs/id/1.0.0".to_string()], &vec![addr("/ip4/10.0.0.1/udp/9090")]);
    assert!(learned.is_empty());
    assert!(!forget_peer(&mut kad, &peer));
}

#[test]
fn refresh_fails_on_empty_table() {
    let mut kad = table();
    assert!(!refresh(&mut kad));
}

#[test]
fn refresh_starts_with_a_known_peer() {
    let mut kad = table();
    let peer = PeerId::random();
    learn_peer(&mut kad, peer, &vec![KADEMLIA_PROTOCOL.to_string()], &vec![addr("/ip4/10.0.0.1/udp/9090")]);
    assert!(refresh(&mut kad));
}

#[test]
fn connection_close_and_identify_timeout_both_remove() {
    let s = settings(None, None);
    let mut store = MessageStore::new();
    let mut kad = table();
    let peer = PeerId::random();
    let input = SwarmInput::IdentifyReceived {
        peer,
        protocols: vec![KADEMLIA_PROTOCOL.to_string()],
        listen_addrs: vec![addr("/ip4/10.0.0.1/udp/9090")],
    };
    assert!(matches!(handle_event(&s, &mut store, &mut kad, input), Reaction::PeerLearned(v) if v.len() == 1));
    let r = handle_event(&s, &mut store, &mut kad, SwarmInput::ConnectionClosed { peer });
    assert!(matches!(r, Reaction::PeerForgotten(true)));
    let r = handle_event(&s, &mut store, &mut kad, SwarmInput::IdentifyTimeout { peer });
    assert!(matches!(r, Reaction::PeerForgotten(false)));
    assert_eq!(store.len(), 0);
}

#[test]
fn gossip_event_on_chat_topic_is_stored() {
    let s = settings(None, None);
    let mut store = MessageStore::new();
    let mut kad = table();
    let m = Message { sender: "user".to_string(), content: "hello".to_string() };
    let input = SwarmInput::GossipMessage { topic: "cortexcode".to_string(), message: Some(m) };
    assert!(matches!(handle_event(&s, &mut store, &mut kad, input), Reaction::Stored(_)));
    assert_eq!(store.list()[0].content, "hello");
    assert_eq!(store.list()[0].sender, "peer");
}

#[test]
fn listen_event_uses_configured_override() {
    let s = settings(None, Some(IpAddress::V4(IP_5_6_7_8)));
    let mut store = MessageStore::new();
    let mut kad = table();
    let input = SwarmInput::NewListenAddr { address: addr("/ip4/0.0.0.0/udp/9090/webrtc-direct") };
    match handle_event(&s, &mut store, &mut kad, input) {
        Reaction::Listening(Some(a)) => assert_eq!(a.to_string(), "/ip4/5.6.7.8/udp/9090/webrtc-direct"),
        _ => panic!("expected an external address"),
    }
}

#[test]
fn informational_events_change_nothing() {
    let s = settings(None, None);
    let mut store = MessageStore::new();
    let mut kad = table();
    for input in [SwarmInput::Subscribed, SwarmInput::ConnectionEstablished, SwarmInput::OutgoingConnectionError, SwarmInput::IncomingConnectionError, SwarmInput::Other] {
        assert!(matches!(handle_event(&s, &mut store, &mut kad, input), Reaction::Noted));
    }
    assert_eq!(store.len(), 0);
}

#[test]
fn fresh_identity_reloads_with_same_peer_id() {
    let first = identity_from_stored(None).unwrap();
    let bytes = first.to_store.clone().unwrap();
    assert_eq!(first.peer_id, first.keypair.public().to_peer_id());
    for _ in 0..3 {
        let again = identity_from_stored(Some(bytes.clone())).unwrap();
        assert!(again.to_store.is_none());
        assert_eq!(again.peer_id, first.peer_id);
        assert_eq!(again.keypair.to_protobuf_encoding().unwrap(), bytes);
    }
}

#[test]
fn two_first_runs_get_their_own_identities() {
    let a = identity_from_stored(None).unwrap();
    let b = identity_from_stored(None).unwrap();
    assert!(a.to_store.is_some() && b.to_store.is_some());
    assert_ne!(a.peer_id, b.peer_id);
}

#[test]
fn stored_identity_is_used_as_is() {
    let key = Keypair::generate_ed25519();
    let bytes = key.to_protobuf_encoding().unwrap();
    let loaded = identity_from_stored(Some(bytes.clone())).unwrap();
    assert!(loaded.to_store.is_none());
    assert_eq!(loaded.peer_id, key.public().to_peer_id());
    assert_eq!(loaded.keypair.to_protobuf_encoding().unwrap(), bytes);
}

#[test]
fn malformed_identity_is_an_error() {
    let r = identity_from_stored(Some(vec![1, 2, 3]));
    assert!(matches!(r, Err(CredentialError::Malformed)));
}

#[test]
fn dht_protocol_is_the_network_own() {
    assert_eq!(KADEMLIA_PROTOCOL, "/cortexcode/kad/1.0.0");
    assert!(!supports_dht(&vec!["/ipfs/kad/1.0.0".to_string()]));
}

#[test]
fn table_owner_is_refused() {
    let local = PeerId::random();
    let mut kad = Behaviour::new(local, MemoryStore::new(local));
    let learned = learn_peer(&mut kad, local, &vec![KADEMLIA_PROTOCOL.to_string()], &vec![addr("/ip4/10.0.0.1/udp/9090")]);
    assert_eq!(learned.len(), 1);
    assert_eq!(learned[0].1, RoutingOutcome::Refused);
    assert!(!refresh(&mut kad));
}
