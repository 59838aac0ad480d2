//! The decisions of the swarm event loop: what each network event does to
//! the message history and the routing table, and what the loop is to do
//! next on the network handle.
use vstd::prelude::*;
use libp2p::kad::store::MemoryStore;
use libp2p::kad::Behaviour;
use libp2p::multiaddr::Multiaddr;
use libp2p::PeerId;
use crate::address::{
    external_address, external_address_spec, segments_of, IpAddress,
};
use crate::message::{local_sender, remote_sender, Message, MessageStore};
use crate::routing::{
    forget_peer, learn_peer, learned, removal, routing_table, table_owner, RoutingOutcome,
};

verus! {

/// What the node is configured with: the topic it expects chat messages on
/// and the overrides of the address it advertises.
pub struct NodeSettings {
    pub topic_hash: String,
    pub external_override: Option<IpAddress>,
    pub env_override: Option<IpAddress>,
}

/// A network event, as far as the event loop tells them apart. A pub/sub
/// payload arrives decoded: `None` where it was not a well-formed message.
pub enum SwarmInput {
    Subscribed,
    GossipMessage { topic: String, message: Option<Message> },
    NewListenAddr { address: Multiaddr },
    ConnectionEstablished,
    OutgoingConnectionError,
    IncomingConnectionError,
    ConnectionClosed { peer: PeerId },
    IdentifyTimeout { peer: PeerId },
    IdentifyReceived { peer: PeerId, protocols: Vec<String>, listen_addrs: Vec<Multiaddr> },
    Other,
}

/// What handling an event came to, for the loop to act on and report.
pub enum Reaction {
    /// Nothing changed; the event is only reported.
    Noted,
    /// A chat message was appended to the history.
    Stored(Message),
    /// A payload on the chat topic could not be decoded and was dropped.
    Undecodable,
    /// A payload on another topic was dropped.
    ForeignTopic,
    /// A listen address came up; the address to register as external, if any.
    Listening(Option<Multiaddr>),
    /// A peer was removed from the routing table; whether it was there.
    PeerForgotten(bool),
    /// A peer's addresses were handed to the routing table.
    PeerLearned(Vec<(Multiaddr, RoutingOutcome)>),
}

/// What a pub/sub payload does to the history.
pub open spec fn delivery(
    expected: Seq<char>,
    topic: Seq<char>,
    message: Option<Message>,
    before: Seq<Message>,
    after: Seq<Message>,
    r: Reaction,
) -> bool {
    if topic != expected {
        after == before && r is ForeignTopic
    } else {
        match message {
            None => after == before && r is Undecodable,
            Some(m) => match r {
                Reaction::Stored(s) => {
                    &&& s.sender@ == remote_sender()
                    &&& s.content == m.content
                    &&& after == before.push(s)
                },
                _ => false,
            },
        }
    }
}

/// Handles a pub/sub payload: on the expected topic and well formed, it is
/// appended to the history as a message from a peer; otherwise dropped.
pub fn receive_gossip(
    expected: &String,
    store: &mut MessageStore,
    topic: String,
    message: Option<Message>,
) -> (r: Reaction)
    ensures
        delivery(expected@, topic@, message, old(store)@, final(store)@, r),
{
    if topic != *expected {
        return Reaction::ForeignTopic;
    }
    match message {
        None => Reaction::Undecodable,
        Some(m) => Reaction::Stored(store.record_incoming(m)),
    }
}

/// The outcome of `handle_event`, by event.
pub open spec fn handled(
    settings: NodeSettings,
    input: SwarmInput,
    store_before: Seq<Message>,
    store_after: Seq<Message>,
    table_before: Map<PeerId, Set<Multiaddr>>,
    table_after: Map<PeerId, Set<Multiaddr>>,
    owner: PeerId,
    r: Reaction,
) -> bool {
    match input {
        SwarmInput::GossipMessage { topic, message } => {
            &&& delivery(settings.topic_hash@, topic@, message, store_before, store_after, r)
            &&& table_after == table_before
        },
        SwarmInput::NewListenAddr { address } => {
            &&& store_after == store_before
            &&& table_after == table_before
            &&& match r {
                Reaction::Listening(ext) => {
                    let want = external_address_spec(
                        address,
                        settings.external_override,
                        settings.env_override,
                    );
                    &&& ext is Some <==> want is Some
                    &&& ext is Some ==> segments_of(ext->0) == want->0
                },
                _ => false,
            }
        },
        SwarmInput::ConnectionClosed { peer } | SwarmInput::IdentifyTimeout { peer } => {
            &&& store_after == store_before
            &&& match r {
                Reaction::PeerForgotten(found) => removal(table_before, table_after, peer, found),
                _ => false,
            }
        },
        SwarmInput::IdentifyReceived { peer, protocols, listen_addrs } => {
            &&& store_after == store_before
            &&& match r {
                Reaction::PeerLearned(added) => learned(
                    table_before,
                    table_after,
                    owner,
                    peer,
                    protocols@,
                    listen_addrs@,
                    added@,
                ),
                _ => false,
            }
        },
        _ => {
            &&& store_after == store_before
            &&& table_after == table_before
            &&& r is Noted
        },
    }
}

/// Handles one network event: updates the history and the routing table as
/// the event calls for, and says what came of it.
pub fn handle_event(
    settings: &NodeSettings,
    store: &mut MessageStore,
    kad: &mut Behaviour<MemoryStore>,
    input: SwarmInput,
) -> (r: Reaction)
    ensures
        handled(
            *settings,
            input,
            old(store)@,
            final(store)@,
            routing_table(*old(kad)),
            routing_table(*final(kad)),
            table_owner(*old(kad)),
            r,
        ),
{
    match input {
        SwarmInput::GossipMessage { topic, message } => receive_gossip(
            &settings.topic_hash,
            store,
            topic,
            message,
        ),
        SwarmInput::NewListenAddr { address } => Reaction::Listening(
            external_address(&address, settings.external_override, settings.env_override),
        ),
        SwarmInput::ConnectionClosed { peer } => Reaction::PeerForgotten(forget_peer(kad, &peer)),
        SwarmInput::IdentifyTimeout { peer } => Reaction::PeerForgotten(forget_peer(kad, &peer)),
        SwarmInput::IdentifyReceived { peer, protocols, listen_addrs } => Reaction::PeerLearned(
            learn_peer(kad, peer, &protocols, &listen_addrs),
        ),
        _ => Reaction::Noted,
    }
}


/// A pub/sub payload on any topic but the expected one never reaches the
/// history.
pub proof fn foreign_topic_is_dropped(
    expected: Seq<char>,
    topic: Seq<char>,
    message: Option<Message>,
    before: Seq<Message>,
    after: Seq<Message>,
    r: Reaction,
)
    requires
        topic != expected,
        delivery(expected, topic, message, before, after, r),
    ensures
        after == before,
{
}

/// A message composed on one node and delivered on the expected topic to a
/// peer is appended, last, to the peer's history with the same content.
pub proof fn sent_content_arrives(
    content: String,
    sent: Message,
    expected: Seq<char>,
    before: Seq<Message>,
    after: Seq<Message>,
    r: Reaction,
)
    requires
        sent.sender@ == local_sender(),
        sent.content == content,
        delivery(expected, expected, Some(sent), before, after, r),
    ensures
        after.len() == before.len() + 1,
        after.subrange(0, before.len() as int) == before,
        after.last().content == content,
        after.last().sender@ == remote_sender(),
{
    assert(after.subrange(0, before.len() as int) =~= before);
}

} // verus!
