//! A node's settings, and the addresses derived from them.

use vstd::prelude::*;
use crate::address::{Address, Protocol, ProtocolView};
use crate::command::{is_space, skip_space, skip_space_from, text_is};
use crate::event::Role;
use crate::peer::PeerId;

verus! {

/// An IP address.
#[derive(Clone, Copy, Debug, PartialEq, Eq, Structural)]
pub enum IpAddress {
    V4(u32),
    V6(u128),
}

/// The hub's settings.
#[derive(Clone, Copy, Debug, PartialEq, Eq, Structural)]
pub struct HubOpt {
    pub listen_port: u16,
}

/// The client's settings: where the hub is.
#[derive(Clone, Copy, Debug, PartialEq, Eq, Structural)]
pub struct ClientOpt {
    pub hub_ip: IpAddress,
    pub hub_port: u16,
}

/// A node's settings.
#[derive(Clone, Debug)]
pub struct Conf {
    /// `hub` or `client`.
    pub role: String,
    pub use_ipv6: bool,
    pub hub: HubOpt,
    pub client: ClientOpt,
}

/// The address component of an IP address.
pub open spec fn ip_component(ip: IpAddress) -> ProtocolView {
    match ip {
        IpAddress::V4(a) => ProtocolView::Ip4(a),
        IpAddress::V6(a) => ProtocolView::Ip6(a),
    }
}

/// The address of the relay `relay` at the hub that `client` names.
pub open spec fn relay_path(client: ClientOpt, relay: Seq<u8>) -> Seq<ProtocolView> {
    seq![ip_component(client.hub_ip), ProtocolView::Tcp(client.hub_port), ProtocolView::P2p(relay)]
}

/// The port a node in `role` listens on: the configured one for a hub,
/// any free port (0) for a client.
pub open spec fn bind_port(role: Role, hub: HubOpt) -> u16 {
    match role {
        Role::Hub => hub.listen_port,
        Role::Client => 0,
    }
}

/// Where a node in `role` with settings `conf` listens: every local
/// interface of the configured IP family, on the port of its role.
pub open spec fn bind_path(conf: Conf, role: Role) -> Seq<ProtocolView> {
    seq![
        if conf.use_ipv6 { ProtocolView::Ip6(0) } else { ProtocolView::Ip4(0) },
        ProtocolView::Tcp(bind_port(role, conf.hub)),
    ]
}

/// Position just after the last character before `j` that is no white space.
pub open spec fn trim_end(s: Seq<char>, j: int) -> int
    decreases j,
{
    if 0 < j <= s.len() && is_space(s[j - 1]) {
        trim_end(s, j - 1)
    } else {
        j
    }
}

/// `s` without white space at either end.
pub open spec fn trimmed(s: Seq<char>) -> Seq<char> {
    let a = skip_space(s, 0);
    if a >= s.len() {
        Seq::<char>::empty()
    } else {
        s.subrange(a, trim_end(s, s.len() as int))
    }
}

/// The role that a role text names, surrounding white space aside.
pub open spec fn role_named(s: Seq<char>) -> Option<Role> {
    if trimmed(s) == "hub"@ {
        Some(Role::Hub)
    } else if trimmed(s) == "client"@ {
        Some(Role::Client)
    } else {
        None
    }
}

proof fn lemma_trim_end_bounds(s: Seq<char>, a: int, j: int)
    requires
        0 <= a < j <= s.len(),
        !is_space(s[a]),
    ensures
        a < trim_end(s, j) <= j,
    decreases j,
{
    if is_space(s[j - 1]) {
        lemma_trim_end_bounds(s, a, j - 1);
    }
}

impl IpAddress {
    /// This address as an address component.
    pub fn component(&self) -> (r: Protocol)
        ensures
            r@ == ip_component(*self),
    {
        match self {
            IpAddress::V4(a) => Protocol::Ip4(*a),
            IpAddress::V6(a) => Protocol::Ip6(*a),
        }
    }
}

impl Role {
    /// The role that `text` names (`hub` or `client`), ignoring surrounding white space.
    pub fn parse(text: &str) -> (r: Option<Role>)
        ensures
            r == role_named(text@),
    {
        let n = text.unicode_len();
        let a = skip_space_from(text, n, 0);
        if a >= n {
            proof {
                reveal_strlit("hub");
                reveal_strlit("client");
                assert("hub"@.len() == 3 && "client"@.len() == 6);
            }
            return None;
        }
        let mut b = n;
        while b > 0 && is_space_at(text, b - 1)
            invariant
                n == text@.len(),
                a < n,
                !is_space(text@[a as int]),
                a < b <= n,
                trim_end(text@, n as int) == trim_end(text@, b as int),
            decreases b,
        {
            b = b - 1;
        }
        proof {
            lemma_trim_end_bounds(text@, a as int, n as int);
        }
        if text_is(text, a, b, "hub") {
            Some(Role::Hub)
        } else if text_is(text, a, b, "client") {
            Some(Role::Client)
        } else {
            None
        }
    }
}

fn is_space_at(text: &str, i: usize) -> (r: bool)
    requires
        i < text@.len(),
    ensures
        r == is_space(text@[i as int]),
{
    crate::command::is_space_char(text.get_char(i))
}

/// Builds the address of the relay `relay` at the hub that `client` names.
pub fn relay_address(client: &ClientOpt, relay: &PeerId) -> (r: Address)
    ensures
        r@ == relay_path(*client, relay@),
{
    let r = Address::empty().with(client.hub_ip.component()).with(Protocol::Tcp(client.hub_port)).with(
        Protocol::P2p(relay.duplicate()),
    );
    assert(r@ =~= relay_path(*client, relay@));
    r
}

impl Conf {
    /// The port that a node in `role` listens on.
    pub fn port_for(&self, role: Role) -> (r: u16)
        ensures
            r == bind_port(role, self.hub),
    {
        match role {
            Role::Hub => self.hub.listen_port,
            Role::Client => 0,
        }
    }

    /// The port to listen on for the role these settings name: the
    /// configured one for a hub, any free port otherwise.
    pub fn get_bind_port(&self) -> (r: u16)
        ensures
            r == match role_named(self.role@) {
                Some(role) => bind_port(role, self.hub),
                None => 0,
            },
    {
        match Role::parse(self.role.as_str()) {
            Some(role) => self.port_for(role),
            None => 0,
        }
    }

    /// Where a node in `role` listens.
    pub fn bind_address(&self, role: Role) -> (r: Address)
        ensures
            r@ == bind_path(*self, role),
    {
        let ip = if self.use_ipv6 {
            Protocol::Ip6(0)
        } else {
            Protocol::Ip4(0)
        };
        let r = Address::empty().with(ip).with(Protocol::Tcp(self.port_for(role)));
        assert(r@ =~= bind_path(*self, role));
        r
    }

    /// The address of the relay `relay` at the configured hub; only a
    /// client has one.
    pub fn get_relay_address(&self, relay: &PeerId) -> (r: Option<Address>)
        ensures
            role_named(self.role@) == Some(Role::Client) ==> (r matches Some(a) && a@ == relay_path(
                self.client,
                relay@,
            )),
            role_named(self.role@) != Some(Role::Client) ==> r is None,
    {
        match Role::parse(self.role.as_str()) {
            Some(Role::Client) => Some(relay_address(&self.client, relay)),
            _ => None,
        }
    }
}

} // verus!
