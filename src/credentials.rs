//! The node's long-term identity: taken from its stored encoding where one
//! exists, generated afresh otherwise.
use vstd::prelude::*;
use libp2p::identity::Keypair;
use libp2p::PeerId;

verus! {

#[verifier::external_type_specification]
#[verifier::external_body]
pub struct ExKeypair(Keypair);

/// Why no credential could be had.
#[derive(PartialEq, Eq, Structural, Clone, Copy, Debug)]
pub enum CredentialError {
    /// The stored encoding does not decode.
    Malformed,
}

/// The keypair that the bytes are the protobuf encoding of, if any.
pub uninterp spec fn keypair_from_encoding(bytes: Seq<u8>) -> Option<Keypair>;

/// The peer id derived from a keypair's public key.
pub uninterp spec fn peer_of_key(k: Keypair) -> PeerId;

/// Relies on `identity::Keypair::from_protobuf_encoding`: what it decodes
/// depends on the bytes alone.
#[verifier::external_body]
fn decode_keypair(bytes: &[u8]) -> (r: Option<Keypair>)
    ensures
        r == keypair_from_encoding(bytes@),
{
    Keypair::from_protobuf_encoding(bytes).ok()
}

/// Relies on `identity::Keypair::generate_ed25519`: a fresh random keypair.
#[verifier::external_body]
fn generate_keypair() -> Keypair {
    Keypair::generate_ed25519()
}

/// Relies on `identity::Keypair::to_protobuf_encoding`: with Ed25519 the
/// only key type built, it always succeeds; the encoding holds the secret and
/// the public key, and decoding it gives back a keypair with the same public
/// key, hence the same peer id.
#[verifier::external_body]
fn encode_keypair(k: &Keypair) -> (r: Option<Vec<u8>>)
    ensures
        r is Some,
        r is Some ==> keypair_from_encoding(r->0@) is Some && peer_of_key(
            keypair_from_encoding(r->0@)->0,
        ) == peer_of_key(*k),
{
    k.to_protobuf_encoding().ok()
}

/// Relies on `identity::PublicKey::to_peer_id`: the peer id of the key's
/// public half, a function of the keypair alone.
#[verifier::external_body]
fn peer_id_of(k: &Keypair) -> (r: PeerId)
    ensures
        r == peer_of_key(*k),
{
    k.public().to_peer_id()
}

/// The identity a node runs with.
pub struct NodeIdentity {
    pub keypair: Keypair,
    pub peer_id: PeerId,
    /// The encoding to store, where the keypair was generated just now.
    pub to_store: Option<Vec<u8>>,
}

/// What `identity_from_stored` owes, by what was stored.
pub open spec fn identity_outcome(
    stored: Option<Seq<u8>>,
    r: Result<NodeIdentity, CredentialError>,
) -> bool {
    match stored {
        Some(bytes) => match keypair_from_encoding(bytes) {
            Some(k) => match r {
                Ok(id) => {
                    &&& id.keypair == k
                    &&& id.peer_id == peer_of_key(k)
                    &&& id.to_store is None
                },
                Err(_) => false,
            },
            None => r == Err::<NodeIdentity, CredentialError>(CredentialError::Malformed),
        },
        None => match r {
            Ok(id) => {
                &&& id.peer_id == peer_of_key(id.keypair)
                &&& id.to_store is Some
                &&& keypair_from_encoding(id.to_store->0@) is Some
                &&& peer_of_key(keypair_from_encoding(id.to_store->0@)->0) == id.peer_id
            },
            Err(_) => false,
        },
    }
}

/// The identity to run with, given the encoding stored at its path (`None`
/// where nothing is stored). A stored encoding is decoded, and a malformed
/// one is an error, never silently replaced. With nothing stored a keypair is
/// generated, and its encoding is returned beside it, to be stored.
pub fn identity_from_stored(stored: Option<Vec<u8>>) -> (r: Result<NodeIdentity, CredentialError>)
    ensures
        identity_outcome(
            match stored {
                Some(b) => Some(b@),
                None => None,
            },
            r,
        ),
{
    match stored {
        Some(bytes) => match decode_keypair(bytes.as_slice()) {
            Some(keypair) => {
                let peer_id = peer_id_of(&keypair);
                Ok(NodeIdentity { keypair, peer_id, to_store: None })
            },
            None => Err(CredentialError::Malformed),
        },
        None => {
            let keypair = generate_keypair();
            let encoded = encode_keypair(&keypair).unwrap();
            let peer_id = peer_id_of(&keypair);
            Ok(NodeIdentity { keypair, peer_id, to_store: Some(encoded) })
        },
    }
}

/// A generated identity, once its encoding is stored, is loaded back on
/// every later run with the same peer id and nothing more to store.
pub proof fn reload_keeps_peer_id(
    first: Result<NodeIdentity, CredentialError>,
    later: Result<NodeIdentity, CredentialError>,
)
    requires
        identity_outcome(None, first),
        first is Ok ==> identity_outcome(Some(first->Ok_0.to_store->0@), later),
    ensures
        first is Ok,
        later is Ok,
        later->Ok_0.peer_id == first->Ok_0.peer_id,
        later->Ok_0.to_store is None,
{
}

} // verus!
