//! The client role: it registers with a relay, then dials peers through it
//! as its user commands.

use vstd::prelude::*;
use crate::address::{Address, ProtocolView, circuit_listen_address, relayed_dial_address};
use crate::command::{Command, CommandView, command_of, fault_text, parse_command};
use crate::conf::{Conf, bind_path, relay_address, relay_path};
use crate::dialer::{DialCoordinator, DialOutcome, DialVerdict, dial_verdict, pending_after_dial,
    inbound_after_event, other_than, pending_after_event};
use crate::event::{Event, Role};
use crate::peer::PeerId;
use crate::pump::{BIND_WINDOW_MICROS, PUMP_WINDOW_MICROS, Pump};
use crate::session::{HandshakeFlags, HandshakeStep, RelayHandshake, handshake_complete,
    handshake_error, handshake_next, handshake_passes_over, handshake_progress};

verus! {

/// What the endpoint must do after a command.
pub enum ClientAction {
    /// Dial the relay at this address, then hand the endpoint's events to
    /// `relay_step` until the registration settles.
    Register(Address),
    /// Dial this address.
    Dial(Address),
}

/// The answer to a command: the reply for the user (`Ok(true)` asks the host
/// to stop) and the work for the endpoint, if any.
pub struct Reply {
    pub result: Result<bool, String>,
    pub action: Option<ClientAction>,
}

/// Where a relay registration stands after an event.
pub enum RelayProgress {
    /// No registration is under way.
    Idle,
    /// Waiting for a half of the handshake.
    Pending,
    /// Registered: listen for relayed circuits at this address.
    ListenOn(Address),
    /// The registration failed on a dial or connection error.
    Failed,
    /// An event with no place in the handshake: a contract violation.
    Fatal,
}

/// The state of a client node.
pub struct Client {
    pub conf: Conf,
    pub peer_id: PeerId,
    /// The relay this client is registered with.
    pub relay_id: Option<PeerId>,
    /// The relay whose registration is under way.
    pub relay_candidate: Option<PeerId>,
    pub dialer: DialCoordinator,
    /// The registration under way, if any.
    pub handshake: Option<RelayHandshake>,
}

/// The text reported when a dial comes before any relay registration.
pub open spec fn no_relay_text() -> Seq<char> {
    "Relay not found, can't dial peer!"@
}

impl Client {
    /// The registration under way, as a value.
    pub open spec fn handshake_view(&self) -> Option<(Seq<ProtocolView>, HandshakeFlags)> {
        match self.handshake {
            Some(h) => Some(h@),
            None => None,
        }
    }

    /// The dial bookkeeping holds no peer twice; the client names a relay
    /// exactly when it is registered with one; a registration under way
    /// names its relay.
    pub open spec fn wf(&self) -> bool {
        &&& self.dialer.wf()
        &&& (self.relay_id is Some) == (self.dialer.binding_view() is Some)
        &&& self.handshake is Some ==> self.relay_candidate is Some
    }
}

/// What `execute` does: `new` is the state after the command line `input`
/// was run on `old`, and `r` the reply.
pub open spec fn execute_post(old: Client, new: Client, input: Seq<char>, r: Reply) -> bool {
    &&& new.wf()
    &&& new.conf == old.conf
    &&& new.peer_id == old.peer_id
    &&& match command_of(input) {
        Err(f) => r.result matches Err(m) && m@ == fault_text(f) && r.action is None && new == old,
        Ok(CommandView::Nothing) => r.result == Ok::<bool, String>(false) && r.action is None
            && new == old,
        Ok(CommandView::Quit) => r.result == Ok::<bool, String>(true) && r.action is None && new
            == old,
        Ok(CommandView::Relay(id)) => {
            let a = relay_path(old.conf.client, id);
            &&& r.result == Ok::<bool, String>(false)
            &&& r.action matches Some(ClientAction::Register(d)) && d@ == a
            &&& new.handshake_view() == Some((a, (false, None::<Seq<ProtocolView>>)))
            &&& new.relay_candidate matches Some(p) && p@ == id
            &&& new.relay_id == old.relay_id
            &&& new.dialer == old.dialer
        },
        Ok(CommandView::Dial(id)) => {
            let bound = old.dialer.binding_view() is Some;
            let v = dial_verdict(bound, old.dialer.pending_view(), old.dialer.inbound_view(), old.peer_id@, id);
            &&& new.relay_id == old.relay_id
            &&& new.relay_candidate == old.relay_candidate
            &&& new.handshake == old.handshake
            &&& new.dialer.binding_view() == old.dialer.binding_view()
            &&& new.dialer.inbound_view() == old.dialer.inbound_view()
            &&& new.dialer.pending_view() == pending_after_dial(
                bound,
                old.dialer.pending_view(),
                old.dialer.inbound_view(),
                old.peer_id@,
                id,
            )
            &&& v == DialVerdict::NoRelay ==> (r.result matches Err(m) && m@ == no_relay_text()
                && r.action is None)
            &&& v == DialVerdict::AlreadyPending || v == DialVerdict::Yield ==> r.result == Ok::<
                bool,
                String,
            >(false) && r.action is None
            &&& v == DialVerdict::Issue ==> (r.result == Ok::<bool, String>(false)
                && (r.action matches Some(ClientAction::Dial(d)) && d@ == relayed_dial_address(
                old.dialer.binding_view()->Some_0.0,
                id,
            )))
        },
    }
}

/// A client that names no relay, whatever events its registrations have
/// taken in so far, refuses every dial and starts no attempt.
pub proof fn lemma_unregistered_client_dials_nothing(c: Client, peer: Seq<u8>)
    requires
        c.wf(),
        c.relay_id is None,
    ensures
        dial_verdict(
            c.dialer.binding_view() is Some,
            c.dialer.pending_view(),
            c.dialer.inbound_view(),
            c.peer_id@,
            peer,
        ) == DialVerdict::NoRelay,
{
}

impl Client {
    /// A client with the given settings and identity, not yet registered with any relay.
    pub fn new(conf: Conf, peer_id: PeerId) -> (r: Client)
        ensures
            r.wf(),
            r.conf == conf,
            r.peer_id == peer_id,
            r.relay_id is None,
            r.relay_candidate is None,
            r.handshake is None,
            r.dialer.binding_view() is None,
            r.dialer.pending_view() == Seq::<Seq<u8>>::empty(),
            r.dialer.inbound_view() == Seq::<Seq<u8>>::empty(),
    {
        Client {
            conf,
            peer_id,
            relay_id: None,
            relay_candidate: None,
            dialer: DialCoordinator::new(),
            handshake: None,
        }
    }

    /// Takes on another identity.
    pub fn set_peer_id(&mut self, peer_id: PeerId)
        ensures
            final(self).peer_id == peer_id,
            final(self).conf == old(self).conf,
            final(self).relay_id == old(self).relay_id,
            final(self).relay_candidate == old(self).relay_candidate,
            final(self).dialer == old(self).dialer,
            final(self).handshake == old(self).handshake,
    {
        self.peer_id = peer_id;
    }

    /// Where to listen.
    pub fn bind_address(&self) -> (r: Address)
        ensures
            r@ == bind_path(self.conf, Role::Client),
    {
        self.conf.bind_address(Role::Client)
    }

    /// The wait for listen confirmations that follows a listen request at time `now`.
    pub fn bind(&self, now: u64) -> (r: Pump)
        ensures
            r == (Pump {
                role: Role::Client,
                started_at: now,
                max_duration: BIND_WINDOW_MICROS,
                until_listening: true,
            }),
    {
        Pump::binding(Role::Client, now, BIND_WINDOW_MICROS)
    }

    /// One pump window from time `now`.
    pub fn wait(&self, now: u64) -> (r: Pump)
        ensures
            r == (Pump {
                role: Role::Client,
                started_at: now,
                max_duration: PUMP_WINDOW_MICROS,
                until_listening: false,
            }),
    {
        Pump::window(Role::Client, now, PUMP_WINDOW_MICROS)
    }

    /// Runs one command line.
    pub fn execute(&mut self, input: &str) -> (r: Reply)
        requires
            old(self).wf(),
        ensures
            execute_post(*old(self), *final(self), input@, r),
    {
        match parse_command(input) {
            Err(m) => Reply { result: Err(m), action: None },
            Ok(Command::Nothing) => Reply { result: Ok(false), action: None },
            Ok(Command::Quit) => Reply { result: Ok(true), action: None },
            Ok(Command::Relay(id)) => {
                let addr = self.relay(id);
                Reply { result: Ok(false), action: Some(ClientAction::Register(addr)) }
            },
            Ok(Command::Dial(id)) => match self.relay_peer(&id) {
                Err(m) => Reply { result: Err(m), action: None },
                Ok(None) => Reply { result: Ok(false), action: None },
                Ok(Some(a)) => Reply { result: Ok(false), action: Some(ClientAction::Dial(a)) },
            },
        }
    }

    /// Begins registering with the relay `relay_id` at the configured hub:
    /// returns the relay's address, to dial before handing the endpoint's
    /// events to `relay_step`. The relay counts as this client's only once
    /// the registration completes.
    pub fn relay(&mut self, relay_id: PeerId) -> (r: Address)
        requires
            old(self).wf(),
        ensures
            final(self).wf(),
            r@ == relay_path(old(self).conf.client, relay_id@),
            final(self).handshake_view() == Some((r@, (false, None::<Seq<ProtocolView>>))),
            final(self).relay_candidate == Some(relay_id),
            final(self).relay_id == old(self).relay_id,
            final(self).conf == old(self).conf,
            final(self).peer_id == old(self).peer_id,
            final(self).dialer == old(self).dialer,
    {
        let addr = relay_address(&self.conf.client, &relay_id);
        self.handshake = Some(RelayHandshake::new(addr.duplicate()));
        self.relay_candidate = Some(relay_id);
        addr
    }

    /// Asks for a dial to `peer` through the registered relay: the address to
    /// dial, nothing where an attempt is outstanding or the peer is the one
    /// to dial, or an error before any registration.
    pub fn relay_peer(&mut self, peer: &PeerId) -> (r: Result<Option<Address>, String>)
        requires
            old(self).wf(),
        ensures
            final(self).wf(),
            final(self).conf == old(self).conf,
            final(self).peer_id == old(self).peer_id,
            final(self).relay_id == old(self).relay_id,
            final(self).relay_candidate == old(self).relay_candidate,
            final(self).handshake == old(self).handshake,
            final(self).dialer.binding_view() == old(self).dialer.binding_view(),
            ({
                let bound = old(self).dialer.binding_view() is Some;
                let v = dial_verdict(
                    bound,
                    old(self).dialer.pending_view(),
                    old(self).dialer.inbound_view(),
                    old(self).peer_id@,
                    peer@,
                );
                &&& final(self).dialer.pending_view() == pending_after_dial(
                    bound,
                    old(self).dialer.pending_view(),
                    old(self).dialer.inbound_view(),
                    old(self).peer_id@,
                    peer@,
                )
                &&& final(self).dialer.inbound_view() == old(self).dialer.inbound_view()
                &&& v == DialVerdict::NoRelay ==> (r matches Err(m) && m@ == no_relay_text())
                &&& v == DialVerdict::AlreadyPending || v == DialVerdict::Yield ==> r == Ok::<
                    Option<Address>,
                    String,
                >(None)
                &&& v == DialVerdict::Issue ==> (r matches Ok(Some(a)) && a@ == relayed_dial_address(
                    old(self).dialer.binding_view()->Some_0.0,
                    peer@,
                ))
            }),
    {
        match self.dialer.dial(&self.peer_id, peer) {
            Err(_) => Err(String::from_str("Relay not found, can't dial peer!")),
            Ok(DialOutcome::AlreadyPending) | Ok(DialOutcome::Yield) => Ok(None),
            Ok(DialOutcome::Dial(a)) => Ok(Some(a)),
        }
    }

    /// Hands one event of the endpoint to the registration under way.
    pub fn relay_step(&mut self, ev: Event) -> (r: RelayProgress)
        requires
            old(self).wf(),
        ensures
            final(self).wf(),
            final(self).conf == old(self).conf,
            final(self).peer_id == old(self).peer_id,
            old(self).handshake is None ==> r is Idle && *final(self) == *old(self),
            old(self).handshake is Some ==> ({
                let h = old(self).handshake_view()->Some_0;
                let f = handshake_next(h.1, ev);
                let settled = handshake_progress(ev) && handshake_complete(f);
                &&& handshake_passes_over(ev) || (handshake_progress(ev) && !handshake_complete(f))
                    ==> r is Pending && final(self).handshake_view() == Some((h.0, f))
                    && final(self).dialer == old(self).dialer
                    && final(self).relay_id == old(self).relay_id
                    && final(self).relay_candidate == old(self).relay_candidate
                &&& handshake_error(ev) ==> r is Failed && final(self).handshake is None
                    && final(self).dialer == old(self).dialer
                    && final(self).relay_id == old(self).relay_id
                    && final(self).relay_candidate is None
                &&& settled ==> (r matches RelayProgress::ListenOn(a) && a@ == circuit_listen_address(h.0)
                    && final(self).handshake is None
                    && final(self).dialer.binding_view() == Some((h.0, f.1->Some_0))
                    && final(self).dialer.pending_view() == old(self).dialer.pending_view()
                    && final(self).dialer.inbound_view() == old(self).dialer.inbound_view()
                    && final(self).relay_id == old(self).relay_candidate
                    && final(self).relay_candidate is None)
                &&& !handshake_passes_over(ev) && !handshake_error(ev) && !handshake_progress(ev)
                    ==> r is Fatal && final(self).handshake is None
                    && final(self).dialer == old(self).dialer
                    && final(self).relay_id == old(self).relay_id
                    && final(self).relay_candidate is None
            }),
    {
        let mut h = match self.handshake.take() {
            None => {
                return RelayProgress::Idle;
            },
            Some(h) => h,
        };
        match h.step(ev) {
            HandshakeStep::Pending => {
                self.handshake = Some(h);
                RelayProgress::Pending
            },
            HandshakeStep::Established(b) => {
                let a = b.circuit_address();
                self.dialer.set_binding(b);
                self.relay_id = self.relay_candidate.take();
                RelayProgress::ListenOn(a)
            },
            HandshakeStep::Failed => {
                self.relay_candidate = None;
                RelayProgress::Failed
            },
            HandshakeStep::Fatal => {
                self.relay_candidate = None;
                RelayProgress::Fatal
            },
        }
    }

    /// Takes in an event of the endpoint outside any registration: it
    /// resolves outstanding dials.
    pub fn observe(&mut self, ev: &Event)
        requires
            old(self).wf(),
        ensures
            final(self).wf(),
            final(self).conf == old(self).conf,
            final(self).peer_id == old(self).peer_id,
            final(self).relay_id == old(self).relay_id,
            final(self).relay_candidate == old(self).relay_candidate,
            final(self).handshake == old(self).handshake,
            final(self).dialer.binding_view() == old(self).dialer.binding_view(),
            final(self).dialer.pending_view() == pending_after_event(old(self).dialer.pending_view(), *ev),
            final(self).dialer.inbound_view() == inbound_after_event(old(self).dialer.inbound_view(), *ev),
    {
        self.dialer.observe(ev);
    }

    /// Forgets the outstanding dial to `peer`: for a dial that the endpoint
    /// refused at once, so that the peer can be dialed again.
    pub fn abandon_dial(&mut self, peer: &PeerId)
        requires
            old(self).wf(),
        ensures
            final(self).wf(),
            final(self).conf == old(self).conf,
            final(self).peer_id == old(self).peer_id,
            final(self).relay_id == old(self).relay_id,
            final(self).relay_candidate == old(self).relay_candidate,
            final(self).handshake == old(self).handshake,
            final(self).dialer.binding_view() == old(self).dialer.binding_view(),
            final(self).dialer.pending_view() == old(self).dialer.pending_view().filter(
                other_than(peer@),
            ),
            final(self).dialer.inbound_view() == old(self).dialer.inbound_view(),
    {
        self.dialer.abandon(peer);
    }
}

} // verus!
