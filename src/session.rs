//! The relay handshake: a node registers with a relay once it has told the
//! relay its observed address and learned its own from the relay.

use vstd::prelude::*;
use crate::address::{Address, Protocol, ProtocolView, circuit_listen_address};
use crate::event::Event;

verus! {

/// A completed registration with a relay: the relay's address and the
/// address at which the relay observes this node.
pub struct RelayBinding {
    relay: Address,
    observed: Address,
}

impl View for RelayBinding {
    type V = (Seq<ProtocolView>, Seq<ProtocolView>);

    closed spec fn view(&self) -> (Seq<ProtocolView>, Seq<ProtocolView>) {
        (self.relay@, self.observed@)
    }
}

impl RelayBinding {
    /// The relay's address.
    pub fn relay(&self) -> (r: &Address)
        ensures
            r@ == self@.0,
    {
        &self.relay
    }

    /// The address at which the relay observes this node.
    pub fn observed(&self) -> (r: &Address)
        ensures
            r@ == self@.1,
    {
        &self.observed
    }

    /// Where this node listens for circuits forwarded by the relay.
    pub fn circuit_address(&self) -> (r: Address)
        ensures
            r@ == circuit_listen_address(self@.0),
    {
        self.relay.duplicate().with(Protocol::P2pCircuit)
    }
}

/// A relay handshake in progress.
pub struct RelayHandshake {
    relay: Address,
    told_relay: bool,
    learned: Option<Address>,
}

/// The two halves of the handshake: whether the relay was told its observed
/// address, and the address learned from the relay, if any.
pub type HandshakeFlags = (bool, Option<Seq<ProtocolView>>);

impl View for RelayHandshake {
    type V = (Seq<ProtocolView>, HandshakeFlags);

    closed spec fn view(&self) -> (Seq<ProtocolView>, HandshakeFlags) {
        (
            self.relay@,
            (
                self.told_relay,
                match self.learned {
                    Some(a) => Some(a@),
                    None => None,
                },
            ),
        )
    }
}

/// What one event does to the handshake.
pub enum HandshakeStep {
    /// Still waiting for a half of the handshake.
    Pending,
    /// Both halves are done.
    Established(RelayBinding),
    /// A dial or connection error: the registration is abandoned.
    Failed,
    /// An event with no place in the handshake: a contract violation.
    Fatal,
}

/// Events that the handshake passes over: connection lifecycle and liveness.
pub open spec fn handshake_passes_over(ev: Event) -> bool {
    ev is NewListenAddr || ev is ExpiredListenAddr || ev is ExternalAddress || ev is Dialing
        || ev is ConnectionEstablished || ev is ConnectionClosed || ev is IncomingConnection
        || ev is Ping
}

/// Events that abort the handshake with an error.
pub open spec fn handshake_error(ev: Event) -> bool {
    ev is OutgoingConnectionError || ev is IncomingConnectionError
}

/// Events that complete a half of the handshake.
pub open spec fn handshake_progress(ev: Event) -> bool {
    ev is IdentifySent || ev is IdentifyReceived
}

/// The halves of the handshake after `ev`.
pub open spec fn handshake_next(f: HandshakeFlags, ev: Event) -> HandshakeFlags {
    (
        f.0 || ev is IdentifySent,
        match ev {
            Event::IdentifyReceived { observed } => Some(observed@),
            _ => f.1,
        },
    )
}

/// The halves of the handshake after each event of `evs` in turn.
pub open spec fn handshake_run(f: HandshakeFlags, evs: Seq<Event>) -> HandshakeFlags
    decreases evs.len(),
{
    if evs.len() == 0 {
        f
    } else {
        handshake_run(handshake_next(f, evs[0]), evs.drop_first())
    }
}

/// Both halves are done.
pub open spec fn handshake_complete(f: HandshakeFlags) -> bool {
    f.0 && f.1 is Some
}

impl RelayHandshake {
    /// A handshake with the relay at `relay`, with neither half done.
    pub fn new(relay: Address) -> (r: RelayHandshake)
        ensures
            r@ == (relay@, (false, None::<Seq<ProtocolView>>)),
    {
        RelayHandshake { relay, told_relay: false, learned: None }
    }

    /// The relay's address: the one to dial to begin the handshake.
    pub fn relay(&self) -> (r: &Address)
        ensures
            r@ == self@.0,
    {
        &self.relay
    }

    /// Takes in one event of the endpoint.
    pub fn step(&mut self, ev: Event) -> (r: HandshakeStep)
        ensures
            final(self)@.0 == old(self)@.0,
            final(self)@.1 == handshake_next(old(self)@.1, ev),
            handshake_passes_over(ev) ==> r is Pending,
            handshake_error(ev) ==> r is Failed,
            handshake_progress(ev) ==> (r is Established <==> handshake_complete(final(self)@.1)),
            handshake_progress(ev) ==> (r is Pending <==> !handshake_complete(final(self)@.1)),
            r matches HandshakeStep::Established(b) ==> b@ == (final(self)@.0,
                final(self)@.1.1->Some_0),
            !handshake_passes_over(ev) && !handshake_error(ev) && !handshake_progress(ev) ==> r is Fatal,
    {
        match ev {
            Event::NewListenAddr { .. } | Event::ExpiredListenAddr { .. } | Event::ExternalAddress
            | Event::Dialing { .. } | Event::ConnectionEstablished { .. }
            | Event::ConnectionClosed { .. } | Event::IncomingConnection { .. } | Event::Ping => {
                HandshakeStep::Pending
            },
            Event::OutgoingConnectionError { .. } | Event::IncomingConnectionError { .. } => HandshakeStep::Failed,
            Event::IdentifySent => {
                self.told_relay = true;
                self.settle()
            },
            Event::IdentifyReceived { observed } => {
                self.learned = Some(observed);
                self.settle()
            },
            _ => HandshakeStep::Fatal,
        }
    }

    fn settle(&self) -> (r: HandshakeStep)
        ensures
            r is Established <==> handshake_complete(self@.1),
            r is Pending <==> !handshake_complete(self@.1),
            r matches HandshakeStep::Established(b) ==> b@ == (self@.0, self@.1.1->Some_0),
    {
        if self.told_relay {
            match &self.learned {
                Some(observed) => HandshakeStep::Established(
                    RelayBinding { relay: self.relay.duplicate(), observed: observed.duplicate() },
                ),
                None => HandshakeStep::Pending,
            }
        } else {
            HandshakeStep::Pending
        }
    }
}

/// Some event of `evs` tells the relay its observed address.
pub open spec fn has_sent(evs: Seq<Event>) -> bool {
    exists|i: int| 0 <= i < evs.len() && (#[trigger] evs[i]) is IdentifySent
}

/// Some event of `evs` brings this node's observed address.
pub open spec fn has_received(evs: Seq<Event>) -> bool {
    exists|i: int| 0 <= i < evs.len() && (#[trigger] evs[i]) is IdentifyReceived
}

proof fn lemma_run_flags(f: HandshakeFlags, evs: Seq<Event>)
    ensures
        handshake_run(f, evs).0 == (f.0 || has_sent(evs)),
        handshake_run(f, evs).1 is Some == (f.1 is Some || has_received(evs)),
    decreases evs.len(),
{
    if evs.len() > 0 {
        let rest = evs.drop_first();
        lemma_run_flags(handshake_next(f, evs[0]), rest);
        if has_sent(rest) {
            let i = choose|i: int| 0 <= i < rest.len() && (#[trigger] rest[i]) is IdentifySent;
            assert(evs[i + 1] == rest[i]);
        }
        if has_sent(evs) && !(evs[0] is IdentifySent) {
            let i = choose|i: int| 0 <= i < evs.len() && (#[trigger] evs[i]) is IdentifySent;
            assert(rest[i - 1] == evs[i]);
        }
        if has_received(rest) {
            let i = choose|i: int| 0 <= i < rest.len() && (#[trigger] rest[i]) is IdentifyReceived;
            assert(evs[i + 1] == rest[i]);
        }
        if has_received(evs) && !(evs[0] is IdentifyReceived) {
            let i = choose|i: int| 0 <= i < evs.len() && (#[trigger] evs[i]) is IdentifyReceived;
            assert(rest[i - 1] == evs[i]);
        }
    }
}

/// Whatever the order of the events a fresh handshake takes in, it is
/// complete exactly when both halves have occurred among them: the relay was
/// told its observed address and this node learned its own.
pub proof fn lemma_complete_needs_both_halves(evs: Seq<Event>)
    ensures
        handshake_complete(handshake_run((false, None), evs)) <==> has_sent(evs) && has_received(
            evs,
        ),
{
    lemma_run_flags((false, None), evs);
}

proof fn lemma_run_keeps_learned(f: HandshakeFlags, evs: Seq<Event>)
    requires
        !has_received(evs),
    ensures
        handshake_run(f, evs).1 == f.1,
    decreases evs.len(),
{
    if evs.len() > 0 {
        let rest = evs.drop_first();
        assert(!has_received(rest)) by {
            if has_received(rest) {
                let i = choose|i: int| 0 <= i < rest.len() && (#[trigger] rest[i]) is IdentifyReceived;
                assert(evs[i + 1] == rest[i]);
            }
        }
        assert(!(evs[0] is IdentifyReceived));
        lemma_run_keeps_learned(handshake_next(f, evs[0]), rest);
    }
}

/// Whatever else a run of events holds (in any order, with any events
/// between), the handshake ends up with the address that the last
/// `IdentifyReceived` of the run carries; with an `IdentifySent` anywhere in
/// the run it is complete, with that address as the observed one.
pub proof fn lemma_run_learns_last_observed(f: HandshakeFlags, evs: Seq<Event>, j: int)
    requires
        0 <= j < evs.len(),
        evs[j] is IdentifyReceived,
        forall|k: int| j < k < evs.len() ==> !(#[trigger] evs[k] is IdentifyReceived),
    ensures
        handshake_run(f, evs).1 == Some(evs[j]->observed@),
        handshake_run(f, evs).0 == (f.0 || has_sent(evs)),
        has_sent(evs) ==> handshake_complete(handshake_run(f, evs)),
    decreases evs.len(),
{
    lemma_run_flags(f, evs);
    let rest = evs.drop_first();
    if j == 0 {
        assert(!has_received(rest)) by {
            if has_received(rest) {
                let i = choose|i: int| 0 <= i < rest.len() && (#[trigger] rest[i]) is IdentifyReceived;
                assert(evs[i + 1] == rest[i]);
            }
        }
        lemma_run_keeps_learned(handshake_next(f, evs[0]), rest);
    } else {
        assert forall|k: int| j - 1 < k < rest.len() implies !(#[trigger] rest[k] is IdentifyReceived) by {
            assert(rest[k] == evs[k + 1]);
        }
        lemma_run_learns_last_observed(handshake_next(f, evs[0]), rest, j - 1);
    }
}

/// The two halves give the same binding in either order.
pub proof fn lemma_halves_commute(observed: Address)
    ensures
        handshake_run(
            (false, None),
            seq![Event::IdentifySent, Event::IdentifyReceived { observed }],
        ) == handshake_run(
            (false, None),
            seq![Event::IdentifyReceived { observed }, Event::IdentifySent],
        ),
        handshake_run(
            (false, None),
            seq![Event::IdentifySent, Event::IdentifyReceived { observed }],
        ) == (true, Some(observed@)),
{
    let a = seq![Event::IdentifySent, Event::IdentifyReceived { observed }];
    let b = seq![Event::IdentifyReceived { observed }, Event::IdentifySent];
    assert(a.drop_first().drop_first() =~= Seq::<Event>::empty());
    assert(b.drop_first().drop_first() =~= Seq::<Event>::empty());
    assert(handshake_run((false, None), a) == (true, Some(observed@))) by {
        reveal_with_fuel(handshake_run, 3);
    }
    assert(handshake_run((false, None), b) == (true, Some(observed@))) by {
        reveal_with_fuel(handshake_run, 3);
    }
}

} // verus!
