//! The connectivity events an endpoint emits, and how each role treats them.

use vstd::prelude::*;
use crate::address::Address;
use crate::peer::PeerId;

verus! {

/// The part a node plays, fixed when it is built.
#[derive(Clone, Copy, Debug, PartialEq, Eq, Structural)]
pub enum Role {
    /// Accepts connections and relays traffic for others.
    Hub,
    /// Registers with a relay and dials peers through it.
    Client,
}

/// A connectivity event, as reported by an endpoint.
#[derive(Clone, Debug)]
#[allow(inconsistent_fields)]
pub enum Event {
    /// A local listening address is bound.
    NewListenAddr { address: Address },
    /// A local listening address is no longer in use.
    ExpiredListenAddr { address: Address },
    /// A candidate, confirmation or expiry of an externally reachable address.
    ExternalAddress,
    /// A listener stopped.
    ListenerClosed,
    /// A listener reported an error.
    ListenerError,
    /// An outbound connection attempt began.
    Dialing { peer: Option<PeerId> },
    ConnectionEstablished { peer: PeerId },
    ConnectionClosed { peer: PeerId },
    /// An inbound connection attempt began; from this peer, where the
    /// address it comes from names one (as a relayed circuit does).
    IncomingConnection { peer: Option<PeerId> },
    /// An inbound connection attempt failed.
    IncomingConnectionError { peer: Option<PeerId> },
    OutgoingConnectionError { peer: Option<PeerId> },
    /// Liveness probe traffic.
    Ping,
    /// This node told the remote side the address it observes for it.
    IdentifySent,
    /// The remote side told this node the address it observes for it.
    IdentifyReceived { observed: Address },
    /// Any other identity-exchange event.
    Identify,
    /// An event of the relay service that a hub runs.
    Relay,
    /// An event of the relay client (reservations, circuits).
    RelayClient,
    /// A hole-punch coordination outcome.
    HolePunch,
    /// An event that has no handling branch here.
    Unclassified,
}

/// What a pump does with an event.
#[derive(Clone, Copy, Debug, PartialEq, Eq, Structural)]
pub enum Disposition {
    /// Record at low severity and continue.
    Trace,
    /// Record and continue.
    Record,
    /// Record at error severity and continue.
    RecordError,
    /// A contract violation: stop.
    Fatal,
}

/// The events that only a relay client can receive.
pub open spec fn client_only(ev: Event) -> bool {
    ev is RelayClient || ev is HolePunch
}

/// How a node in `role` treats `ev`.
pub open spec fn disposition(role: Role, ev: Event) -> Disposition {
    match ev {
        Event::Ping | Event::IdentifySent | Event::IdentifyReceived { .. } | Event::Identify
        | Event::IncomingConnection { .. } => Disposition::Trace,
        Event::NewListenAddr { .. } | Event::ExpiredListenAddr { .. } | Event::ExternalAddress
        | Event::Dialing { .. } | Event::ConnectionEstablished { .. }
        | Event::ConnectionClosed { .. } => Disposition::Record,
        Event::IncomingConnectionError { .. } | Event::OutgoingConnectionError { .. }
        | Event::ListenerClosed | Event::ListenerError => Disposition::RecordError,
        Event::Relay => if role == Role::Hub { Disposition::Record } else { Disposition::Fatal },
        Event::RelayClient | Event::HolePunch => if role == Role::Client {
            Disposition::Record
        } else {
            Disposition::Fatal
        },
        Event::Unclassified => Disposition::Fatal,
    }
}

/// Sorts `ev` for a node in `role`.
pub fn classify(role: Role, ev: &Event) -> (r: Disposition)
    ensures
        r == disposition(role, *ev),
{
    match ev {
        Event::Ping | Event::IdentifySent | Event::IdentifyReceived { .. } | Event::Identify
        | Event::IncomingConnection { .. } => Disposition::Trace,
        Event::NewListenAddr { .. } | Event::ExpiredListenAddr { .. } | Event::ExternalAddress
        | Event::Dialing { .. } | Event::ConnectionEstablished { .. }
        | Event::ConnectionClosed { .. } => Disposition::Record,
        Event::IncomingConnectionError { .. } | Event::OutgoingConnectionError { .. }
        | Event::ListenerClosed | Event::ListenerError => Disposition::RecordError,
        Event::Relay => match role {
            Role::Hub => Disposition::Record,
            Role::Client => Disposition::Fatal,
        },
        Event::RelayClient | Event::HolePunch => match role {
            Role::Client => Disposition::Record,
            Role::Hub => Disposition::Fatal,
        },
        Event::Unclassified => Disposition::Fatal,
    }
}

/// Every event falls in exactly one of three classes, whatever the role:
/// recorded and passed over, recorded as an error, or fatal. Fatal are exactly
/// the unclassified events and those of the other role's relay protocol.
pub proof fn lemma_classification_complete(role: Role, ev: Event)
    ensures
        ({
            let d = disposition(role, ev);
            let logged = d == Disposition::Trace || d == Disposition::Record;
            let errored = d == Disposition::RecordError;
            let fatal = d == Disposition::Fatal;
            &&& logged || errored || fatal
            &&& !(logged && errored) && !(logged && fatal) && !(errored && fatal)
        }),
        disposition(role, ev) == Disposition::Fatal <==> (ev is Unclassified || (role == Role::Hub
            && client_only(ev)) || (role == Role::Client && ev is Relay)),
{
}

} // verus!
