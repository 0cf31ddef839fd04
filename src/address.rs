//! Network addresses as sequences of protocol components.

use vstd::prelude::*;
use crate::peer::PeerId;

verus! {

/// One component of a layered network address.
#[derive(Clone, Debug, PartialEq, Eq)]
pub enum Protocol {
    Ip4(u32),
    Ip6(u128),
    Tcp(u16),
    /// The peer reached at this point of the path.
    P2p(PeerId),
    /// Marks the way through a relay's circuit.
    P2pCircuit,
    /// A component this library passes through without reading, in its text form.
    Other(String),
}

/// The mathematical value of a `Protocol`.
pub enum ProtocolView {
    Ip4(u32),
    Ip6(u128),
    Tcp(u16),
    P2p(Seq<u8>),
    P2pCircuit,
    Other(Seq<char>),
}

impl View for Protocol {
    type V = ProtocolView;

    open spec fn view(&self) -> ProtocolView {
        match self {
            Protocol::Ip4(a) => ProtocolView::Ip4(*a),
            Protocol::Ip6(a) => ProtocolView::Ip6(*a),
            Protocol::Tcp(p) => ProtocolView::Tcp(*p),
            Protocol::P2p(id) => ProtocolView::P2p(id@),
            Protocol::P2pCircuit => ProtocolView::P2pCircuit,
            Protocol::Other(s) => ProtocolView::Other(s@),
        }
    }
}

impl Protocol {
    /// A copy of this component.
    pub fn duplicate(&self) -> (r: Protocol)
        ensures
            r@ == self@,
    {
        match self {
            Protocol::Ip4(a) => Protocol::Ip4(*a),
            Protocol::Ip6(a) => Protocol::Ip6(*a),
            Protocol::Tcp(p) => Protocol::Tcp(*p),
            Protocol::P2p(id) => Protocol::P2p(id.duplicate()),
            Protocol::P2pCircuit => Protocol::P2pCircuit,
            Protocol::Other(s) => Protocol::Other(s.clone()),
        }
    }
}

/// A network address: its components, outermost first.
#[derive(Clone, Debug, PartialEq, Eq)]
pub struct Address {
    pub parts: Vec<Protocol>,
}

impl View for Address {
    type V = Seq<ProtocolView>;

    open spec fn view(&self) -> Seq<ProtocolView> {
        self.parts@.map_values(|p: Protocol| p@)
    }
}

impl Address {
    /// The address with no components.
    pub fn empty() -> (r: Address)
        ensures
            r@ == Seq::<ProtocolView>::empty(),
    {
        let r = Address { parts: Vec::new() };
        assert(r@ =~= Seq::<ProtocolView>::empty());
        r
    }

    /// This address with one more component at its end.
    pub fn with(self, p: Protocol) -> (r: Address)
        ensures
            r@ == self@.push(p@),
    {
        let mut parts = self.parts;
        parts.push(p);
        let r = Address { parts };
        assert(r@ =~= self@.push(p@));
        r
    }

    /// A copy of this address.
    pub fn duplicate(&self) -> (r: Address)
        ensures
            r@ == self@,
    {
        let mut parts: Vec<Protocol> = Vec::new();
        let mut i: usize = 0;
        while i < self.parts.len()
            invariant
                0 <= i <= self.parts@.len(),
                parts@.len() == i,
                forall|j: int| 0 <= j < i ==> #[trigger] parts@[j]@ == self.parts@[j]@,
            decreases self.parts@.len() - i,
        {
            parts.push(self.parts[i].duplicate());
            i = i + 1;
        }
        let r = Address { parts };
        assert(r@ =~= self@);
        r
    }
}

/// Where a node listens for circuits that a relay forwards to it.
pub open spec fn circuit_listen_address(relay: Seq<ProtocolView>) -> Seq<ProtocolView> {
    relay.push(ProtocolView::P2pCircuit)
}

/// The path to `peer` through the relay at `relay`.
pub open spec fn relayed_dial_address(relay: Seq<ProtocolView>, peer: Seq<u8>) -> Seq<ProtocolView> {
    relay.push(ProtocolView::P2pCircuit).push(ProtocolView::P2p(peer))
}

} // verus!
