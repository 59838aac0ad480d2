//! The pub/sub topic that carries chat messages.
use vstd::prelude::*;
use libp2p::gossipsub::IdentTopic;

verus! {

/// The name of the chat topic; every peer must use the same one.
pub const CHAT_TOPIC: &'static str = "cortexcode";

/// Relies on gossipsub's `IdentTopic::hash`: an identity-hashed topic's hash
/// is its name, unchanged.
#[verifier::external_body]
fn ident_topic_hash(name: &str) -> (r: String)
    ensures
        r@ == name@,
{
    IdentTopic::new(name).hash().into_string()
}

/// The wire-level identifier of the chat topic.
pub fn chat_topic_hash() -> (r: String)
    ensures
        r@ == CHAT_TOPIC@,
{
    ident_topic_hash(CHAT_TOPIC)
}

} // verus!
