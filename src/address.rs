//! Circuit addresses: a relay's address, the relay's peer id, the circuit
//! marker and the target's peer id, in that order.
use vstd::prelude::*;

use libp2p::multiaddr::Protocol;
use libp2p::{Multiaddr, PeerId};

verus! {

#[verifier::external_type_specification]
#[verifier::external_body]
pub struct ExMultiaddr(Multiaddr);

#[verifier::external_type_specification]
#[verifier::external_body]
pub struct ExPeerId(PeerId);

/// One component of a multiaddress, as far as circuits are concerned.
pub enum Component {
    /// A `/p2p/<peer id>` anchor.
    Peer(PeerId),
    /// The `/p2p-circuit` marker.
    Circuit,
    /// Any other protocol (`/ip4/..`, `/tcp/..`, ...).
    Other,
}

/// A component that can be appended to an address.
pub enum Hop {
    Peer(PeerId),
    Circuit,
}

pub open spec fn hop_component(h: Hop) -> Component {
    match h {
        Hop::Peer(p) => Component::Peer(p),
        Hop::Circuit => Component::Circuit,
    }
}

/// The components of a multiaddress, in order.
pub uninterp spec fn components(a: Multiaddr) -> Seq<Component>;

/// The components of the multiaddress that the text parses as, if it parses.
pub uninterp spec fn multiaddr_text(s: Seq<char>) -> Option<Seq<Component>>;

/// The peer id that the text parses as, if it parses.
pub uninterp spec fn peer_id_text(s: Seq<char>) -> Option<PeerId>;

/// Whether the text parses as a multiaddress.
pub open spec fn multiaddr_parses(s: Seq<char>) -> bool {
    multiaddr_text(s) is Some
}

/// Whether the text parses as a peer id.
pub open spec fn peer_id_parses(s: Seq<char>) -> bool {
    peer_id_text(s) is Some
}

/// Relies on `Multiaddr::with`, which appends one protocol at the end.
#[verifier::external_body]
fn append_hop(a: Multiaddr, hop: Hop) -> (r: Multiaddr)
    ensures
        components(r) == components(a).push(hop_component(hop)),
{
    match hop {
        Hop::Peer(p) => a.with(Protocol::P2p(p)),
        Hop::Circuit => a.with(Protocol::P2pCircuit),
    }
}

/// Relies on `Multiaddr`'s derived `Clone`: the copy has the same components.
#[verifier::external_body]
fn copy_multiaddr(a: &Multiaddr) -> (r: Multiaddr)
    ensures
        components(r) == components(*a),
{
    a.clone()
}

/// Relies on `Multiaddr`'s `FromStr`, which fails on text that is no multiaddress.
#[verifier::external_body]
fn parse_multiaddr(s: &str) -> (r: Option<Multiaddr>)
    ensures
        r is Some <==> multiaddr_text(s@) is Some,
        r matches Some(a) ==> Some(components(a)) == multiaddr_text(s@),
{
    s.parse::<Multiaddr>().ok()
}

/// Relies on `PeerId`'s `FromStr`, which fails on text that is no base58 peer id.
#[verifier::external_body]
fn parse_peer_id(s: &str) -> (r: Option<PeerId>)
    ensures
        r == peer_id_text(s@),
{
    s.parse::<PeerId>().ok()
}

/// The components of the address that reaches `target` through `relay` at `base`.
pub open spec fn circuit_components(base: Seq<Component>, relay: PeerId, target: PeerId) -> Seq<
    Component,
> {
    base + seq![Component::Peer(relay), Component::Circuit, Component::Peer(target)]
}

/// A circuit address: it ends in the target's peer id, holds exactly one
/// circuit marker, and the marker follows the relay's peer id.
pub open spec fn is_circuit_to(c: Seq<Component>, relay: PeerId, target: PeerId) -> bool {
    &&& c.len() >= 3
    &&& c.last() == Component::Peer(target)
    &&& c[c.len() - 2] is Circuit
    &&& c[c.len() - 3] == Component::Peer(relay)
    &&& forall|j: int| 0 <= j < c.len() && #[trigger] c[j] is Circuit ==> j == c.len() - 2
}

/// Appends to the relay's address its peer id, the circuit marker and the target's peer id.
pub fn build_circuit(relay_addr: &Multiaddr, relay_peer: PeerId, target: PeerId) -> (r: Multiaddr)
    ensures
        components(r) == circuit_components(components(*relay_addr), relay_peer, target),
{
    let a = copy_multiaddr(relay_addr);
    let a = append_hop(a, Hop::Peer(relay_peer));
    let a = append_hop(a, Hop::Circuit);
    let a = append_hop(a, Hop::Peer(target));
    assert(components(a) =~= circuit_components(components(*relay_addr), relay_peer, target));
    a
}

/// A relay address without a circuit marker of its own gives a circuit address
/// that ends in the target's peer id and holds one marker, right after the
/// relay's peer id.
pub proof fn lemma_circuit_shape(
    relay_addr: Multiaddr,
    relay_peer: PeerId,
    target: PeerId,
    circuit: Multiaddr,
)
    requires
        forall|j: int|
            0 <= j < components(relay_addr).len() ==> !(#[trigger] components(relay_addr)[j] is Circuit),
        components(circuit) == circuit_components(components(relay_addr), relay_peer, target),
    ensures
        is_circuit_to(components(circuit), relay_peer, target),
{
    let base = components(relay_addr);
    let c = components(circuit);
    assert forall|j: int| 0 <= j < c.len() && #[trigger] c[j] is Circuit implies j == c.len()
        - 2 by {
        if j < base.len() {
            assert(c[j] == base[j]);
        }
    }
}

/// Why the configured text gives no dial target.
#[derive(Debug, Clone, Copy, PartialEq, Eq)]
pub enum AddressError {
    BadRelayAddress,
    BadRelayPeerId,
    BadTargetPeerId,
}

/// What the node registers and dials: the relay, its address, the target
/// and the circuit address that reaches the target through the relay.
pub struct DialPlan {
    pub relay_addr: Multiaddr,
    pub relay_peer: PeerId,
    pub target: PeerId,
    pub circuit: Multiaddr,
}

/// Parses the configured relay address, relay peer id and target peer id, in
/// that order, and composes the circuit address; the first text that does not
/// parse gives its error.
pub fn plan_dial(relay_addr: &str, relay_peer: &str, target: &str) -> (r: Result<
    DialPlan,
    AddressError,
>)
    ensures
        r is Ok <==> multiaddr_parses(relay_addr@) && peer_id_parses(relay_peer@)
            && peer_id_parses(target@),
        r == Err::<DialPlan, AddressError>(AddressError::BadRelayAddress) <==> !multiaddr_parses(
            relay_addr@,
        ),
        r == Err::<DialPlan, AddressError>(AddressError::BadRelayPeerId) <==> multiaddr_parses(
            relay_addr@,
        ) && !peer_id_parses(relay_peer@),
        r == Err::<DialPlan, AddressError>(AddressError::BadTargetPeerId) <==> multiaddr_parses(
            relay_addr@,
        ) && peer_id_parses(relay_peer@) && !peer_id_parses(target@),
        r matches Ok(p) ==> Some(components(p.relay_addr)) == multiaddr_text(relay_addr@)
            && Some(p.relay_peer) == peer_id_text(relay_peer@) && Some(p.target) == peer_id_text(
            target@,
        ),
        r matches Ok(p) ==> components(p.circuit) == circuit_components(
            components(p.relay_addr),
            p.relay_peer,
            p.target,
        ),
{
    let addr = match parse_multiaddr(relay_addr) {
        Some(a) => a,
        None => return Err(AddressError::BadRelayAddress),
    };
    let relay = match parse_peer_id(relay_peer) {
        Some(p) => p,
        None => return Err(AddressError::BadRelayPeerId),
    };
    let target = match parse_peer_id(target) {
        Some(p) => p,
        None => return Err(AddressError::BadTargetPeerId),
    };
    let circuit = build_circuit(&addr, relay, target);
    Ok(DialPlan { relay_addr: addr, relay_peer: relay, target, circuit })
}

} // verus!
