use swarm_chat::message::{Message, MessageStore};
use swarm_chat::node::{receive_gossip, Reaction};
use swarm_chat::topic::{chat_topic_hash, CHAT_TOPIC};

fn msg(sender: &str, content: &str) -> Message {
    Message { sender: sender.to_string(), content: content.to_string() }
}

#[test]
fn new_store_is_empty() {
    let store = MessageStore::new();
    assert_eq!(store.len(), 0);
    assert!(store.list().is_empty());
}

#[test]
fn append_keeps_arrival_order() {
    let mut store = MessageStore::new();
    store.append(msg("user", "one"));
    store.append(msg("peer", "two"));
    store.append(msg("user", "one"));
    let all = store.list();
    assert_eq!(all.len(), 3);
    assert_eq!(all[0].content, "one");
    assert_eq!(all[1].content, "two");
    assert_eq!(all[1].sender, "peer");
    assert_eq!(all[2].content, "one");
}

#[test]
fn interleaved_sends_and_deliveries_keep_order() {
    let mut store = MessageStore::new();
    let topic = chat_topic_hash();
    store.record_outgoing("s1".to_string());
    receive_gossip(&topic, &mut store, topic.clone(), Some(msg("x", "d1")));
    store.record_outgoing("s2".to_string());
    receive_gossip(&topic, &mut store, topic.clone(), Some(msg("x", "d2")));
    receive_gossip(&topic, &mut store, topic.clone(), Some(msg("x", "d2")));
    let all = store.list();
    let contents: Vec<&str> = all.iter().map(|m| m.content.as_str()).collect();
    assert_eq!(contents, vec!["s1", "d1", "s2", "d2", "d2"]);
    let senders: Vec<&str> = all.iter().map(|m| m.sender.as_str()).collect();
    assert_eq!(senders, vec!["user", "peer", "user", "peer", "peer"]);
}

#[test]
fn outgoing_message_is_marked_as_user() {
    let mut store = MessageStore::new();
    let m = store.record_outgoing("hello".to_string());
    assert_eq!(m.sender, "user");
    assert_eq!(m.content, "hello");
    assert_eq!(store.len(), 1);
    assert_eq!(store.list()[0].sender, "user");
}

#[test]
fn incoming_message_keeps_content_and_is_marked_as_peer() {
    let mut store = MessageStore::new();
    let m = store.record_incoming(msg("someone", "hi"));
    assert_eq!(m.sender, "peer");
    assert_eq!(m.content, "hi");
    assert_eq!(store.list()[0].sender, "peer");
}

#[test]
fn chat_topic_hash_is_the_topic_name() {
    assert_eq!(chat_topic_hash(), "cortexcode");
    assert_eq!(chat_topic_hash(), CHAT_TOPIC);
}

#[test]
fn sent_message_reaches_the_peer_history() {
    let mut sender_store = MessageStore::new();
    let mut receiver_store = MessageStore::new();
    let topic = chat_topic_hash();
    let sent = sender_store.record_outgoing("hello".to_string());
    let r = receive_gossip(&topic, &mut receiver_store, topic.clone(), Some(sent));
    assert!(matches!(r, Reaction::Stored(_)));
    let all = receiver_store.list();
    assert_eq!(all.len(), 1);
    assert_eq!(all[0].content, "hello");
    assert_eq!(all[0].sender, "peer");
}

#[test]
fn message_on_other_topic_is_dropped() {
    let mut store = MessageStore::new();
    let topic = chat_topic_hash();
    let r = receive_gossip(&topic, &mut store, "other".to_string(), Some(msg("x", "hi")));
    assert!(matches!(r, Reaction::ForeignTopic));
    assert_eq!(store.len(), 0);
}

#[test]
fn undecodable_payload_is_dropped() {
    let mut store = MessageStore::new();
    let topic = chat_topic_hash();
    let r = receive_gossip(&topic, &mut store, topic.clone(), None);
    assert!(matches!(r, Reaction::Undecodable));
    assert_eq!(store.len(), 0);
}
