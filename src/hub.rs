//! The hub role: it listens, relays for others and records what happens.

use vstd::prelude::*;
use crate::address::Address;
use crate::conf::{Conf, bind_path};
use crate::event::Role;
use crate::peer::PeerId;
use crate::pump::{BIND_WINDOW_MICROS, PUMP_WINDOW_MICROS, Pump};

verus! {

/// The state of a hub node.
pub struct Hub {
    pub conf: Conf,
    pub peer_id: PeerId,
}

impl Hub {
    /// A hub with the given settings and identity.
    pub fn new(conf: Conf, peer_id: PeerId) -> (r: Hub)
        ensures
            r.conf == conf,
            r.peer_id == peer_id,
    {
        Hub { conf, peer_id }
    }

    /// Takes on another identity.
    pub fn set_peer_id(&mut self, peer_id: PeerId)
        ensures
            final(self).peer_id == peer_id,
            final(self).conf == old(self).conf,
    {
        self.peer_id = peer_id;
    }

    /// Where to listen.
    pub fn bind_address(&self) -> (r: Address)
        ensures
            r@ == bind_path(self.conf, Role::Hub),
    {
        self.conf.bind_address(Role::Hub)
    }

    /// The wait for listen confirmations that follows a listen request at time `now`.
    pub fn bind(&self, now: u64) -> (r: Pump)
        ensures
            r == (Pump {
                role: Role::Hub,
                started_at: now,
                max_duration: BIND_WINDOW_MICROS,
                until_listening: true,
            }),
    {
        Pump::binding(Role::Hub, now, BIND_WINDOW_MICROS)
    }

    /// One pump window from time `now`.
    pub fn wait(&self, now: u64) -> (r: Pump)
        ensures
            r == (Pump {
                role: Role::Hub,
                started_at: now,
                max_duration: PUMP_WINDOW_MICROS,
                until_listening: false,
            }),
    {
        Pump::window(Role::Hub, now, PUMP_WINDOW_MICROS)
    }
}

} // verus!
