//! Network addresses as the chat node reads them, and the choice of the
//! address it advertises to other peers.
use vstd::prelude::*;
use libp2p::multiaddr::{Multiaddr, Protocol};
use libp2p::PeerId;

verus! {

#[verifier::external_type_specification]
#[verifier::external_body]
pub struct ExMultiaddr(Multiaddr);

#[verifier::external_type_specification]
#[verifier::external_body]
pub struct ExPeerId(PeerId);

/// An IP address held as its numeric value: 32 bits for IPv4, 128 for IPv6.
#[derive(PartialEq, Eq, Structural, Clone, Copy, Debug)]
pub enum IpAddress {
    V4(u32),
    V6(u128),
}

/// One protocol segment of an address, as far as this node tells them apart.
pub enum Segment {
    Ip(IpAddress),
    WebRtcDirect,
    P2p(PeerId),
    Other,
}

/// A segment that this node appends to an address.
pub enum Suffix {
    WebRtcDirect,
    P2p(PeerId),
}

pub open spec fn suffix_segment(s: Suffix) -> Segment {
    match s {
        Suffix::WebRtcDirect => Segment::WebRtcDirect,
        Suffix::P2p(p) => Segment::P2p(p),
    }
}

/// The protocol segments of an address, in order.
pub uninterp spec fn segments_of(m: Multiaddr) -> Seq<Segment>;

/// Relies on `Multiaddr::with`: it appends one protocol at the end.
#[verifier::external_body]
pub(crate) fn multiaddr_with(m: &Multiaddr, s: Suffix) -> (r: Multiaddr)
    ensures
        segments_of(r) == segments_of(*m).push(suffix_segment(s)),
{
    m.clone().with(match s {
        Suffix::WebRtcDirect => Protocol::WebRTCDirect,
        Suffix::P2p(p) => Protocol::P2p(p),
    })
}

/// Relies on `Multiaddr::replace`: at index 0 the closure always yields a
/// protocol, so the first segment is swapped and the rest kept; an address
/// without segments gives `None`.
#[verifier::external_body]
pub(crate) fn multiaddr_replace_first(m: &Multiaddr, ip: IpAddress) -> (r: Option<Multiaddr>)
    ensures
        segments_of(*m).len() == 0 ==> r is None,
        segments_of(*m).len() > 0 ==> r is Some && segments_of(r->0) == segments_of(*m).update(
            0,
            Segment::Ip(ip),
        ),
{
    let p = match ip {
        IpAddress::V4(bits) => Protocol::Ip4(bits.into()),
        IpAddress::V6(bits) => Protocol::Ip6(bits.into()),
    };
    m.replace(0, move |_| Some(p))
}

/// The IP to advertise in place of the locally observed one: the explicit
/// override wins over the environment's, which is used only where it parsed.
pub open spec fn chosen_override(cli: Option<IpAddress>, env: Option<IpAddress>) -> Option<
    IpAddress,
> {
    if cli is Some {
        cli
    } else {
        env
    }
}

/// What `external_address` yields for a listen address.
pub open spec fn external_address_spec(
    listen: Multiaddr,
    cli: Option<IpAddress>,
    env: Option<IpAddress>,
) -> Option<Seq<Segment>> {
    match chosen_override(cli, env) {
        Some(ip) => if segments_of(listen).len() > 0 {
            Some(segments_of(listen).update(0, Segment::Ip(ip)))
        } else {
            None
        },
        None => None,
    }
}

/// The address to register as externally reachable for a new listen
/// address, or `None` where nothing is to be registered: no override is
/// given, or the listen address has no segment to replace.
pub fn external_address(listen: &Multiaddr, cli: Option<IpAddress>, env: Option<IpAddress>) -> (r:
    Option<Multiaddr>)
    ensures
        r is Some <==> external_address_spec(*listen, cli, env) is Some,
        r is Some ==> segments_of(r->0) == external_address_spec(*listen, cli, env)->0,
{
    let chosen = match cli {
        Some(ip) => Some(ip),
        None => env,
    };
    match chosen {
        Some(ip) => multiaddr_replace_first(listen, ip),
        None => None,
    }
}

/// The segments of the address under which a peer is entered in the
/// routing table: its listen address, then the direct-transport marker,
/// then its peer id.
pub open spec fn routing_segments(listen: Multiaddr, peer: PeerId) -> Seq<Segment> {
    segments_of(listen).push(Segment::WebRtcDirect).push(Segment::P2p(peer))
}

/// Rewrites a listen address reported by a peer to the form under which
/// the peer is reached over the direct transport.
pub fn routing_address(listen: &Multiaddr, peer: PeerId) -> (r: Multiaddr)
    ensures
        segments_of(r) == routing_segments(*listen, peer),
{
    let with_transport = multiaddr_with(listen, Suffix::WebRtcDirect);
    multiaddr_with(&with_transport, Suffix::P2p(peer))
}


/// The explicit override always decides the advertised address; without it,
/// the environment's override is used exactly when it parsed as an address.
pub proof fn override_precedence(listen: Multiaddr, cli: IpAddress, env: Option<IpAddress>)
    requires
        segments_of(listen).len() > 0,
    ensures
        external_address_spec(listen, Some(cli), env) == Some(
            segments_of(listen).update(0, Segment::Ip(cli)),
        ),
        external_address_spec(listen, None, env) is Some <==> env is Some,
        env is Some ==> external_address_spec(listen, None, env) == Some(
            segments_of(listen).update(0, Segment::Ip(env->0)),
        ),
{
}

} // verus!
