//! Upkeep of the DHT routing table: peers are entered from their identify
//! exchange and removed when their connection closes or their identify
//! exchange times out.
use vstd::prelude::*;
use libp2p::kad::store::MemoryStore;
use libp2p::kad::{Behaviour, RoutingUpdate};
use libp2p::multiaddr::Multiaddr;
use libp2p::PeerId;
use crate::address::{routing_address, routing_segments, segments_of};

verus! {

#[verifier::external_type_specification]
#[verifier::external_body]
#[verifier::reject_recursive_types(TStore)]
pub struct ExKademlia<TStore>(Behaviour<TStore>);

#[verifier::external_type_specification]
#[verifier::external_body]
pub struct ExMemoryStore(MemoryStore);

/// The routing table: the addresses known for each peer that is entered in
/// it, or pending entry into a full bucket.
pub uninterp spec fn routing_table(k: Behaviour<MemoryStore>) -> Map<PeerId, Set<Multiaddr>>;

/// No entry of `after` other than `peer`'s is new or altered: the table may
/// only have dropped entries (a full bucket lazily evicts a stale one).
pub open spec fn others_kept(
    before: Map<PeerId, Set<Multiaddr>>,
    after: Map<PeerId, Set<Multiaddr>>,
    peer: PeerId,
) -> bool {
    forall|q: PeerId|
        q != peer && #[trigger] after.contains_key(q) ==> before.contains_key(q) && after[q]
            == before[q]
}

/// No entry of `after` is new or altered.
pub open spec fn all_kept(
    before: Map<PeerId, Set<Multiaddr>>,
    after: Map<PeerId, Set<Multiaddr>>,
) -> bool {
    forall|q: PeerId| #[trigger]
        after.contains_key(q) ==> before.contains_key(q) && after[q] == before[q]
}

/// What removing `peer` does to the table, `found` telling whether it was
/// there.
pub open spec fn removal(
    before: Map<PeerId, Set<Multiaddr>>,
    after: Map<PeerId, Set<Multiaddr>>,
    peer: PeerId,
    found: bool,
) -> bool {
    &&& !after.contains_key(peer)
    &&& all_kept(before, after)
    &&& found ==> before.contains_key(peer)
}

/// The peer the table was made for: this node, which is never entered.
pub uninterp spec fn table_owner(k: Behaviour<MemoryStore>) -> PeerId;

/// The peers held in the buckets proper, not waiting in a pending slot.
pub uninterp spec fn bucket_peers(k: Behaviour<MemoryStore>) -> Set<PeerId>;

/// How many peers one bucket holds.
pub const BUCKET_SIZE: usize = 20;

/// What holds of every table: it is finite, never holds its owner, and its
/// bucket peers are among its entries.
pub open spec fn well_kept(k: Behaviour<MemoryStore>) -> bool {
    &&& routing_table(k).dom().finite()
    &&& !routing_table(k).contains_key(table_owner(k))
    &&& bucket_peers(k).subset_of(routing_table(k).dom())
}

/// How the table took an address.
#[derive(PartialEq, Eq, Structural, Clone, Copy, Debug)]
pub enum RoutingOutcome {
    /// The table took the address for the peer. A stale pending entry that
    /// falls due at that moment may still evict the peer right after.
    Added,
    /// The peer waits, with the address, for a slot in a full bucket.
    Pending,
    /// The bucket and its pending slot are taken, or the peer is the owner.
    Refused,
}

/// What adding `addr` for `peer` does to the table of `owner`.
pub open spec fn addition(
    before: Map<PeerId, Set<Multiaddr>>,
    after: Map<PeerId, Set<Multiaddr>>,
    owner: PeerId,
    peer: PeerId,
    addr: Multiaddr,
    outcome: RoutingOutcome,
) -> bool {
    &&& others_kept(before, after, peer)
    &&& outcome == RoutingOutcome::Added ==> (after.contains_key(peer) ==> after[peer].contains(
        addr,
    ))
    &&& outcome == RoutingOutcome::Pending ==> after.contains_key(peer) && after[peer].contains(
        addr,
    )
    &&& outcome == RoutingOutcome::Refused ==> !after.contains_key(peer)
    &&& outcome == RoutingOutcome::Refused ==> peer == owner || before.dom().len() >= BUCKET_SIZE
    &&& after.contains_key(peer) ==> forall|x: Multiaddr| #[trigger]
        after[peer].contains(x) ==> x == addr || (before.contains_key(peer)
            && before[peer].contains(x))
}

/// Relies on `kad::Behaviour::remove_peer`: the peer leaves the table, or
/// its pending slot; `Some` only where it was found there. Looking up its
/// bucket may drop a stale pending entry, never add one.
#[verifier::external_body]
fn kad_remove_peer(k: &mut Behaviour<MemoryStore>, peer: &PeerId) -> (found: bool)
    ensures
        removal(routing_table(*old(k)), routing_table(*final(k)), *peer, found),
        table_owner(*final(k)) == table_owner(*old(k)),
        well_kept(*final(k)),
{
    k.remove_peer(peer).is_some()
}

/// Relies on `kad::Behaviour::add_address`: `Success` where the peer was (or
/// is now) in its bucket and the address was added, though a pending entry
/// applied on the second bucket lookup may evict it; `Pending` where it
/// waits with the address for a slot; `Failed` only where the peer is the
/// owner or its bucket, of `BUCKET_SIZE` other peers, is full.
#[verifier::external_body]
fn kad_add_address(k: &mut Behaviour<MemoryStore>, peer: &PeerId, addr: &Multiaddr) -> (r:
    RoutingOutcome)
    ensures
        addition(
            routing_table(*old(k)),
            routing_table(*final(k)),
            table_owner(*old(k)),
            *peer,
            *addr,
            r,
        ),
        table_owner(*final(k)) == table_owner(*old(k)),
        well_kept(*final(k)),
{
    match k.add_address(peer, addr.clone()) {
        RoutingUpdate::Success => RoutingOutcome::Added,
        RoutingUpdate::Pending => RoutingOutcome::Pending,
        RoutingUpdate::Failed => RoutingOutcome::Refused,
    }
}

/// Relies on `kad::Behaviour::bootstrap`: it collects the peers of all
/// buckets, after applying due pending entries, and starts a self-lookup
/// unless that collection is empty.
#[verifier::external_body]
fn kad_bootstrap(k: &mut Behaviour<MemoryStore>) -> (started: bool)
    ensures
        all_kept(routing_table(*old(k)), routing_table(*final(k))),
        started <==> !bucket_peers(*final(k)).is_empty(),
        table_owner(*final(k)) == table_owner(*old(k)),
        well_kept(*final(k)),
{
    k.bootstrap().is_ok()
}

/// Removes a peer from the routing table, whether or not it is there.
/// Returns whether it was found.
pub fn forget_peer(k: &mut Behaviour<MemoryStore>, peer: &PeerId) -> (found: bool)
    ensures
        removal(routing_table(*old(k)), routing_table(*final(k)), *peer, found),
{
    kad_remove_peer(k, peer)
}

/// Starts a routing-table refresh: it starts exactly when, once due pending
/// entries are applied, some bucket holds a peer; never on an empty table.
pub fn refresh(k: &mut Behaviour<MemoryStore>) -> (started: bool)
    ensures
        all_kept(routing_table(*old(k)), routing_table(*final(k))),
        started <==> !bucket_peers(*final(k)).is_empty(),
        routing_table(*old(k)).dom().is_empty() ==> !started,
{
    let started = kad_bootstrap(k);
    proof {
        if routing_table(*old(k)).dom().is_empty() && started {
            let q = bucket_peers(*k).choose();
            assert(bucket_peers(*k).contains(q));
            assert(routing_table(*old(k)).dom().contains(q));
        }
    }
    started
}

} // verus!

verus! {

/// The protocol name under which peers of this network run the DHT.
pub const KADEMLIA_PROTOCOL: &'static str = "/cortexcode/kad/1.0.0";

/// Whether a peer advertises the DHT protocol of this network.
pub open spec fn advertises_dht(protocols: Seq<String>) -> bool {
    exists|i: int| 0 <= i < protocols.len() && #[trigger] protocols[i]@ == KADEMLIA_PROTOCOL@
}

/// Tells whether the DHT protocol of this network is among `protocols`.
pub fn supports_dht(protocols: &Vec<String>) -> (r: bool)
    ensures
        r == advertises_dht(protocols@),
{
    let name = String::from_str(KADEMLIA_PROTOCOL);
    let mut i: usize = 0;
    while i < protocols.len()
        invariant
            i <= protocols@.len(),
            name@ == KADEMLIA_PROTOCOL@,
            forall|j: int| 0 <= j < i ==> #[trigger] protocols@[j]@ != KADEMLIA_PROTOCOL@,
        decreases protocols@.len() - i,
    {
        if protocols[i] == name {
            return true;
        }
        i = i + 1;
    }
    false
}

/// What entering `peer` from its identify exchange does to the table of
/// `owner`, `r` listing each rewritten address with how the table took it.
pub open spec fn learned(
    before: Map<PeerId, Set<Multiaddr>>,
    after: Map<PeerId, Set<Multiaddr>>,
    owner: PeerId,
    peer: PeerId,
    protocols: Seq<String>,
    listen_addrs: Seq<Multiaddr>,
    r: Seq<(Multiaddr, RoutingOutcome)>,
) -> bool {
    &&& !advertises_dht(protocols) ==> r.len() == 0 && after == before
    &&& advertises_dht(protocols) ==> {
        &&& r.len() == listen_addrs.len()
        &&& forall|i: int|
            0 <= i < r.len() ==> segments_of(#[trigger] r[i].0) == routing_segments(
                listen_addrs[i],
                peer,
            )
        &&& others_kept(before, after, peer)
        &&& after.contains_key(peer) ==> forall|x: Multiaddr| #[trigger]
            after[peer].contains(x) ==> (before.contains_key(peer) && before[peer].contains(x))
                || exists|j: int| 0 <= j < r.len() && r[j].0 == x
        &&& r.len() > 0 && r.last().1 == RoutingOutcome::Pending ==> after.contains_key(peer)
            && after[peer].contains(r.last().0)
        &&& r.len() > 0 && r.last().1 == RoutingOutcome::Added && after.contains_key(peer)
            ==> after[peer].contains(r.last().0)
        &&& peer != owner && before.dom().finite() && before.dom().len() + 1 < BUCKET_SIZE
            ==> forall|i: int| 0 <= i < r.len() ==> (#[trigger] r[i]).1 != RoutingOutcome::Refused
    }
}

/// Enters a peer in the routing table from its identify exchange. Where it
/// advertises the DHT protocol of this network, each of its listen
/// addresses, rewritten to the direct-transport form, is handed to the
/// table; the result lists each rewritten address with how the table took
/// it. Otherwise the table is left alone and the result is empty.
pub fn learn_peer(
    k: &mut Behaviour<MemoryStore>,
    peer: PeerId,
    protocols: &Vec<String>,
    listen_addrs: &Vec<Multiaddr>,
) -> (r: Vec<(Multiaddr, RoutingOutcome)>)
    ensures
        learned(
            routing_table(*old(k)),
            routing_table(*final(k)),
            table_owner(*old(k)),
            peer,
            protocols@,
            listen_addrs@,
            r@,
        ),
{
    let mut out: Vec<(Multiaddr, RoutingOutcome)> = Vec::new();
    if !supports_dht(protocols) {
        return out;
    }
    let ghost t0 = routing_table(*k);
    let ghost owner = table_owner(*k);
    let ghost roomy = peer != owner && t0.dom().finite() && t0.dom().len() + 1 < BUCKET_SIZE;
    let mut i: usize = 0;
    while i < listen_addrs.len()
        invariant
            i <= listen_addrs@.len(),
            out@.len() == i,
            table_owner(*k) == owner,
            roomy == (peer != owner && t0.dom().finite() && t0.dom().len() + 1 < BUCKET_SIZE),
            forall|j: int|
                0 <= j < i ==> segments_of(#[trigger] out@[j].0) == routing_segments(
                    listen_addrs@[j],
                    peer,
                ),
            others_kept(t0, routing_table(*k), peer),
            routing_table(*k).contains_key(peer) ==> forall|x: Multiaddr| #[trigger]
                routing_table(*k)[peer].contains(x) ==> (t0.contains_key(peer)
                    && t0[peer].contains(x)) || exists|j: int| 0 <= j < out@.len() && out@[j].0 == x,
            out@.len() > 0 && out@.last().1 == RoutingOutcome::Pending ==> routing_table(
                *k,
            ).contains_key(peer) && routing_table(*k)[peer].contains(out@.last().0),
            out@.len() > 0 && out@.last().1 == RoutingOutcome::Added && routing_table(
                *k,
            ).contains_key(peer) ==> routing_table(*k)[peer].contains(out@.last().0),
            roomy ==> forall|j: int|
                0 <= j < out@.len() ==> (#[trigger] out@[j]).1 != RoutingOutcome::Refused,
        decreases listen_addrs@.len() - i,
    {
        let ghost before = routing_table(*k);
        let ghost before_out = out@;
        proof {
            if roomy {
                assert(before.dom().subset_of(t0.dom().insert(peer)));
                vstd::set_lib::lemma_len_subset(before.dom(), t0.dom().insert(peer));
            }
        }
        let addr = routing_address(&listen_addrs[i], peer);
        let outcome = kad_add_address(k, &peer, &addr);
        out.push((addr, outcome));
        proof {
            let after = routing_table(*k);
            assert(out@[out@.len() - 1].0 == addr);
            assert forall|x: Multiaddr| after.contains_key(peer) && #[trigger] after[peer].contains(x)
                implies (t0.contains_key(peer) && t0[peer].contains(x)) || exists|j: int|
                0 <= j < out@.len() && out@[j].0 == x by {
                if x != addr {
                    assert(before.contains_key(peer) && before[peer].contains(x));
                    if !(t0.contains_key(peer) && t0[peer].contains(x)) {
                        let j = choose|j: int| 0 <= j < before_out.len() && before_out[j].0 == x;
                        assert(out@[j] == before_out[j]);
                    }
                } else {
                    assert(out@[out@.len() - 1].0 == x);
                }
            }
            assert forall|j: int| 0 <= j < i + 1 implies segments_of(#[trigger] out@[j].0)
                == routing_segments(listen_addrs@[j], peer) by {
                if j < i {
                    assert(out@[j] == before_out[j]);
                }
            }
            if roomy {
                assert forall|j: int| 0 <= j < out@.len() implies (#[trigger] out@[j]).1
                    != RoutingOutcome::Refused by {
                    if j < i {
                        assert(out@[j] == before_out[j]);
                    }
                }
            }
        }
        i = i + 1;
    }
    out
}

} // verus!
