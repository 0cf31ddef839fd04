//! Coordination logic for NAT traversal through a relay: the relay handshake,
//! relayed dials with a tie-break rule, a bounded event pump, command parsing
//! and a role-based node façade, all over plain values.

pub mod address;
pub mod client;
pub mod command;
pub mod conf;
pub mod dialer;
pub mod event;
pub mod hub;
pub mod opt;
pub mod peer;
pub mod pump;
pub mod session;

pub use event::Event;

use vstd::prelude::*;
use crate::address::Address;
use crate::client::{Client, Reply, execute_post};
use crate::conf::{Conf, bind_path, role_named};
use crate::event::Role;
use crate::hub::Hub;
use crate::peer::PeerId;
use crate::pump::{BIND_WINDOW_MICROS, PUMP_WINDOW_MICROS, Pump};

verus! {

/// A node in its role, fixed when it is built.
pub enum Node {
    Hub(Hub),
    Client(Client),
}

impl Node {
    /// The role this node plays.
    pub open spec fn role_spec(&self) -> Role {
        match self {
            Node::Hub(_) => Role::Hub,
            Node::Client(_) => Role::Client,
        }
    }

    /// The node's settings.
    pub open spec fn conf_spec(&self) -> Conf {
        match self {
            Node::Hub(h) => h.conf,
            Node::Client(c) => c.conf,
        }
    }

    /// A client node's dial bookkeeping holds no peer twice.
    pub open spec fn wf(&self) -> bool {
        match self {
            Node::Hub(_) => true,
            Node::Client(c) => c.wf(),
        }
    }

    /// A node of the role that `conf.role` names, with identity `peer_id`;
    /// a client starts with no relay registration.
    pub fn new(conf: Conf, peer_id: PeerId) -> (r: Node)
        requires
            role_named(conf.role@) is Some,
        ensures
            r.wf(),
            r.role_spec() == role_named(conf.role@)->Some_0,
            r.conf_spec() == conf,
            match r {
                Node::Hub(h) => h.peer_id == peer_id,
                Node::Client(c) => c.peer_id == peer_id && c.relay_id is None && c.handshake is None
                    && c.dialer.binding_view() is None && c.dialer.pending_view() == Seq::<
                    Seq<u8>,
                >::empty() && c.dialer.inbound_view() == Seq::<Seq<u8>>::empty(),
            },
    {
        match Role::parse(conf.role.as_str()) {
            Some(Role::Hub) => Node::Hub(Hub::new(conf, peer_id)),
            _ => Node::Client(Client::new(conf, peer_id)),
        }
    }

    /// The role this node plays.
    pub fn role(&self) -> (r: Role)
        ensures
            r == self.role_spec(),
    {
        match self {
            Node::Hub(_) => Role::Hub,
            Node::Client(_) => Role::Client,
        }
    }

    /// This node's identity.
    pub fn get_peer_id(&self) -> (r: &PeerId)
        ensures
            *r == match self {
                Node::Hub(h) => h.peer_id,
                Node::Client(c) => c.peer_id,
            },
    {
        match self {
            Node::Hub(h) => &h.peer_id,
            Node::Client(c) => &c.peer_id,
        }
    }

    /// Where to listen.
    pub fn bind_address(&self) -> (r: Address)
        ensures
            r@ == bind_path(self.conf_spec(), self.role_spec()),
    {
        match self {
            Node::Hub(h) => h.bind_address(),
            Node::Client(c) => c.bind_address(),
        }
    }

    /// The wait for listen confirmations that follows a listen request at time `now`.
    pub fn bind(&self, now: u64) -> (r: Pump)
        ensures
            r == (Pump {
                role: self.role_spec(),
                started_at: now,
                max_duration: BIND_WINDOW_MICROS,
                until_listening: true,
            }),
    {
        match self {
            Node::Hub(h) => h.bind(now),
            Node::Client(c) => c.bind(now),
        }
    }

    /// Runs one command line; only a client takes commands.
    pub fn execute(&mut self, user_input: &str) -> (r: Reply)
        requires
            old(self).wf(),
            *old(self) is Client,
        ensures
            *final(self) is Client,
            final(self).wf(),
            execute_post((*old(self))->Client_0, (*final(self))->Client_0, user_input@, r),
    {
        match self {
            Node::Client(c) => c.execute(user_input),
            Node::Hub(_) => Reply { result: Ok(false), action: None },
        }
    }

    /// One pump window from time `now`.
    pub fn wait(&self, now: u64) -> (r: Pump)
        ensures
            r == (Pump {
                role: self.role_spec(),
                started_at: now,
                max_duration: PUMP_WINDOW_MICROS,
                until_listening: false,
            }),
    {
        match self {
            Node::Hub(h) => h.wait(now),
            Node::Client(c) => c.wait(now),
        }
    }
}

} // verus!
