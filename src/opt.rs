//! Start options of a node, as given on its command line.

use vstd::prelude::*;
use crate::address::Address;
use crate::peer::PeerId;

verus! {

/// Start options of a hub.
#[derive(Clone, Copy, Debug, PartialEq, Eq, Structural)]
pub struct HubOpt {
    /// Start as a client rather than as a hub.
    pub as_client: Option<bool>,
    /// Listen on the IPv6 rather than the IPv4 loopback address.
    pub use_ipv6: Option<bool>,
    /// The port to listen on, on every interface.
    pub port: u16,
}

/// Start options of a client that probes its reachability through a server.
#[derive(Clone, Debug)]
pub struct ClientOpt {
    pub port: u16,
    pub server_address: Address,
    pub server_peer_id: PeerId,
}

} // verus!
