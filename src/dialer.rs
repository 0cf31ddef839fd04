//! Dials to peers through a relay: only once registered, at most one
//! outstanding attempt per peer, and, where the peer is dialing this side at
//! the same time, only from the side that the tie-break rule picks.

use vstd::prelude::*;
use crate::address::{Address, Protocol, ProtocolView, relayed_dial_address};
use crate::event::Event;
use crate::peer::{PeerId, lex_less, lemma_lex_exactly_one};
use crate::session::RelayBinding;

verus! {

/// Whether the side `local` opens the connection between `local` and
/// `remote`: the side with the smaller identifier dials, the other listens.
pub open spec fn initiates(local: Seq<u8>, remote: Seq<u8>) -> bool {
    lex_less(local, remote)
}

/// Applies the tie-break rule for the pair (`local`, `remote`).
pub fn should_initiate(local: &PeerId, remote: &PeerId) -> (r: bool)
    ensures
        r == initiates(local@, remote@),
{
    local.precedes(remote)
}

/// For two distinct peers, exactly one of them dials the other, and each
/// side, deciding alone, reaches the same answer.
pub proof fn lemma_tie_break(a: Seq<u8>, b: Seq<u8>)
    requires
        a != b,
    ensures
        initiates(a, b) != initiates(b, a),
{
    lemma_lex_exactly_one(a, b);
}

/// Why a dial was not issued.
#[derive(Clone, Copy, Debug, PartialEq, Eq, Structural)]
pub enum DialError {
    /// No relay registration is complete yet.
    NoRelay,
}

/// What a dial request comes to, in the abstract.
#[derive(Clone, Copy, Debug, PartialEq, Eq, Structural)]
pub enum DialVerdict {
    NoRelay,
    AlreadyPending,
    /// Both sides are dialing and the other side wins the tie-break: wait
    /// for its relayed connection.
    Yield,
    Issue,
}

/// What a dial request from `local` to `peer` comes to, given whether a
/// relay binding exists, the peers with an outbound attempt outstanding and
/// the peers with an inbound attempt in progress.
pub open spec fn dial_verdict(
    bound: bool,
    pending: Seq<Seq<u8>>,
    inbound: Seq<Seq<u8>>,
    local: Seq<u8>,
    peer: Seq<u8>,
) -> DialVerdict {
    if !bound {
        DialVerdict::NoRelay
    } else if pending.contains(peer) {
        DialVerdict::AlreadyPending
    } else if inbound.contains(peer) && !initiates(local, peer) {
        DialVerdict::Yield
    } else {
        DialVerdict::Issue
    }
}

/// The outstanding attempts after a dial request.
pub open spec fn pending_after_dial(
    bound: bool,
    pending: Seq<Seq<u8>>,
    inbound: Seq<Seq<u8>>,
    local: Seq<u8>,
    peer: Seq<u8>,
) -> Seq<Seq<u8>> {
    if dial_verdict(bound, pending, inbound, local, peer) == DialVerdict::Issue {
        pending.push(peer)
    } else {
        pending
    }
}

/// Holds of every peer but `p`.
pub open spec fn other_than(p: Seq<u8>) -> spec_fn(Seq<u8>) -> bool {
    |q: Seq<u8>| q != p
}

/// The outstanding outbound attempts after `ev`: an established connection
/// or an outgoing error resolves the attempt to that peer.
pub open spec fn pending_after_event(pending: Seq<Seq<u8>>, ev: Event) -> Seq<Seq<u8>> {
    match ev {
        Event::ConnectionEstablished { peer } => pending.filter(other_than(peer@)),
        Event::OutgoingConnectionError { peer: Some(p) } => pending.filter(other_than(p@)),
        _ => pending,
    }
}

/// The inbound attempts in progress after `ev`: an incoming connection from
/// a named peer begins one; an established connection or an incoming error
/// from that peer ends it.
pub open spec fn inbound_after_event(inbound: Seq<Seq<u8>>, ev: Event) -> Seq<Seq<u8>> {
    match ev {
        Event::IncomingConnection { peer: Some(p) } => if inbound.contains(p@) {
            inbound
        } else {
            inbound.push(p@)
        },
        Event::ConnectionEstablished { peer } => inbound.filter(other_than(peer@)),
        Event::IncomingConnectionError { peer: Some(p) } => inbound.filter(other_than(p@)),
        _ => inbound,
    }
}

/// Without a completed relay registration every dial request is refused
/// and starts no attempt.
pub proof fn lemma_no_dial_before_registration(
    pending: Seq<Seq<u8>>,
    inbound: Seq<Seq<u8>>,
    local: Seq<u8>,
    peer: Seq<u8>,
)
    ensures
        dial_verdict(false, pending, inbound, local, peer) == DialVerdict::NoRelay,
        pending_after_dial(false, pending, inbound, local, peer) == pending,
{
}

/// Once registered, a dial to a peer with no attempt outstanding and no
/// attempt of its own in progress is always issued.
pub proof fn lemma_uncontested_dial_is_issued(
    pending: Seq<Seq<u8>>,
    inbound: Seq<Seq<u8>>,
    local: Seq<u8>,
    peer: Seq<u8>,
)
    requires
        !pending.contains(peer),
        !inbound.contains(peer),
    ensures
        dial_verdict(true, pending, inbound, local, peer) == DialVerdict::Issue,
        pending_after_dial(true, pending, inbound, local, peer) == pending.push(peer),
{
}

/// When two distinct registered peers dial each other at the same time (each
/// sees the other's relayed attempt coming in), with no outbound attempt
/// outstanding, exactly one of the two requests issues a dial: the one from
/// the peer with the smaller identifier. The outcome depends on the two
/// identifiers alone.
pub proof fn lemma_mutual_dial_issues_once(
    a: Seq<u8>,
    b: Seq<u8>,
    pending_a: Seq<Seq<u8>>,
    pending_b: Seq<Seq<u8>>,
    inbound_a: Seq<Seq<u8>>,
    inbound_b: Seq<Seq<u8>>,
)
    requires
        a != b,
        !pending_a.contains(b),
        !pending_b.contains(a),
        inbound_a.contains(b),
        inbound_b.contains(a),
    ensures
        (dial_verdict(true, pending_a, inbound_a, a, b) == DialVerdict::Issue) != (dial_verdict(
            true,
            pending_b,
            inbound_b,
            b,
            a,
        ) == DialVerdict::Issue),
        dial_verdict(true, pending_a, inbound_a, a, b) == DialVerdict::Issue <==> lex_less(a, b),
{
    lemma_lex_exactly_one(a, b);
}

/// Issuing the same dial twice before the first attempt resolves starts one
/// outbound attempt at most.
pub proof fn lemma_second_dial_issues_nothing(
    bound: bool,
    pending: Seq<Seq<u8>>,
    inbound: Seq<Seq<u8>>,
    local: Seq<u8>,
    peer: Seq<u8>,
)
    ensures
        dial_verdict(bound, pending_after_dial(bound, pending, inbound, local, peer), inbound, local, peer)
            != DialVerdict::Issue,
{
    let after = pending_after_dial(bound, pending, inbound, local, peer);
    if dial_verdict(bound, pending, inbound, local, peer) == DialVerdict::Issue {
        assert(after[after.len() - 1] == peer);
    }
}

/// Whether a dial is issued, and to which address.
pub enum DialOutcome {
    /// Dial this address.
    Dial(Address),
    /// An attempt to this peer is already outstanding: nothing to do.
    AlreadyPending,
    /// The peer is dialing this side and wins the tie-break: wait for its
    /// relayed connection.
    Yield,
}

/// The identifiers of a list of peers.
pub open spec fn ids(v: Seq<PeerId>) -> Seq<Seq<u8>> {
    v.map_values(|p: PeerId| p@)
}

fn holds_peer(v: &Vec<PeerId>, peer: &PeerId) -> (r: bool)
    ensures
        r == ids(v@).contains(peer@),
{
    let mut i: usize = 0;
    while i < v.len()
        invariant
            0 <= i <= v@.len(),
            forall|j: int| 0 <= j < i ==> v@[j]@ != peer@,
        decreases v@.len() - i,
    {
        if v[i].same(peer) {
            assert(ids(v@)[i as int] == peer@);
            return true;
        }
        i = i + 1;
    }
    assert(!ids(v@).contains(peer@)) by {
        if ids(v@).contains(peer@) {
            let k = choose|k: int| 0 <= k < ids(v@).len() && ids(v@)[k] == peer@;
            assert(v@[k]@ == peer@);
        }
    }
    false
}

fn add_peer(v: &mut Vec<PeerId>, peer: &PeerId)
    requires
        ids(old(v)@).no_duplicates(),
        !ids(old(v)@).contains(peer@),
    ensures
        ids(final(v)@) == ids(old(v)@).push(peer@),
        ids(final(v)@).no_duplicates(),
{
    let ghost before = ids(v@);
    v.push(peer.duplicate());
    assert(ids(v@) =~= before.push(peer@));
    assert forall|i: int, j: int|
        0 <= i < ids(v@).len() && 0 <= j < ids(v@).len() && i != j implies ids(v@)[i] != ids(v@)[j] by {
        if i < before.len() && j < before.len() {
        } else if i == before.len() {
            assert(before[j] == ids(v@)[j]);
        } else {
            assert(before[i] == ids(v@)[i]);
        }
    }
}

fn drop_peer(v: &mut Vec<PeerId>, done: &PeerId)
    requires
        ids(old(v)@).no_duplicates(),
    ensures
        ids(final(v)@) == ids(old(v)@).filter(other_than(done@)),
        ids(final(v)@).no_duplicates(),
{
    let ghost old_view = ids(v@);
    let ghost keep = other_than(done@);
    let mut kept: Vec<PeerId> = Vec::new();
    let mut i: usize = 0;
    while i < v.len()
        invariant
            0 <= i <= v@.len(),
            old_view == ids(v@),
            keep == other_than(done@),
            ids(kept@) == old_view.subrange(0, i as int).filter(keep),
        decreases v@.len() - i,
    {
        let ghost prefix = old_view.subrange(0, i as int);
        assert(old_view.subrange(0, i + 1) =~= prefix.push(old_view[i as int]));
        proof {
            prefix.lemma_filter_push(old_view[i as int], keep);
        }
        assert(v@[i as int]@ == old_view[i as int]);
        assert(keep(old_view[i as int]) == (old_view[i as int] != done@));
        if !v[i].same(done) {
            let ghost kv = ids(kept@);
            kept.push(v[i].duplicate());
            assert(ids(kept@) =~= kv.push(old_view[i as int]));
        }
        i = i + 1;
    }
    assert(old_view.subrange(0, old_view.len() as int) =~= old_view);
    proof {
        lemma_filter_no_duplicates(old_view, keep);
    }
    *v = kept;
}

/// Decides the dials of one endpoint.
pub struct DialCoordinator {
    binding: Option<RelayBinding>,
    pending: Vec<PeerId>,
    inbound: Vec<PeerId>,
}

impl DialCoordinator {
    /// The relay binding, if registered.
    pub closed spec fn binding_view(&self) -> Option<(Seq<ProtocolView>, Seq<ProtocolView>)> {
        match self.binding {
            Some(b) => Some(b@),
            None => None,
        }
    }

    /// The peers with an outbound dial outstanding, oldest first.
    pub closed spec fn pending_view(&self) -> Seq<Seq<u8>> {
        ids(self.pending@)
    }

    /// The peers with an inbound attempt in progress, oldest first.
    pub closed spec fn inbound_view(&self) -> Seq<Seq<u8>> {
        ids(self.inbound@)
    }

    /// No peer is listed twice.
    pub open spec fn wf(&self) -> bool {
        self.pending_view().no_duplicates() && self.inbound_view().no_duplicates()
    }

    /// A coordinator with no relay and no attempt under way.
    pub fn new() -> (r: DialCoordinator)
        ensures
            r.wf(),
            r.binding_view() is None,
            r.pending_view() == Seq::<Seq<u8>>::empty(),
            r.inbound_view() == Seq::<Seq<u8>>::empty(),
    {
        let r = DialCoordinator { binding: None, pending: Vec::new(), inbound: Vec::new() };
        assert(r.pending_view() =~= Seq::<Seq<u8>>::empty());
        assert(r.inbound_view() =~= Seq::<Seq<u8>>::empty());
        r
    }

    /// The relay binding, if registered.
    pub fn binding(&self) -> (r: Option<&RelayBinding>)
        ensures
            match r {
                Some(b) => self.binding_view() == Some(b@),
                None => self.binding_view() is None,
            },
    {
        match &self.binding {
            Some(b) => Some(b),
            None => None,
        }
    }

    /// Records a completed relay registration; a new relay replaces the old one.
    pub fn set_binding(&mut self, binding: RelayBinding)
        requires
            old(self).wf(),
        ensures
            final(self).wf(),
            final(self).binding_view() == Some(binding@),
            final(self).pending_view() == old(self).pending_view(),
            final(self).inbound_view() == old(self).inbound_view(),
    {
        self.binding = Some(binding);
    }

    /// Asks, on behalf of the local peer `local`, for a dial to `peer`
    /// through the registered relay.
    pub fn dial(&mut self, local: &PeerId, peer: &PeerId) -> (r: Result<DialOutcome, DialError>)
        requires
            old(self).wf(),
        ensures
            final(self).wf(),
            final(self).binding_view() == old(self).binding_view(),
            final(self).inbound_view() == old(self).inbound_view(),
            final(self).pending_view() == pending_after_dial(
                old(self).binding_view() is Some,
                old(self).pending_view(),
                old(self).inbound_view(),
                local@,
                peer@,
            ),
            ({
                let v = dial_verdict(
                    old(self).binding_view() is Some,
                    old(self).pending_view(),
                    old(self).inbound_view(),
                    local@,
                    peer@,
                );
                match r {
                    Err(DialError::NoRelay) => v == DialVerdict::NoRelay,
                    Ok(DialOutcome::AlreadyPending) => v == DialVerdict::AlreadyPending,
                    Ok(DialOutcome::Yield) => v == DialVerdict::Yield,
                    Ok(DialOutcome::Dial(a)) => v == DialVerdict::Issue && a@ == relayed_dial_address(
                        old(self).binding_view()->Some_0.0,
                        peer@,
                    ),
                }
            }),
    {
        let addr = match &self.binding {
            None => {
                return Err(DialError::NoRelay);
            },
            Some(b) => b.relay().duplicate(),
        };
        if holds_peer(&self.pending, peer) {
            return Ok(DialOutcome::AlreadyPending);
        }
        if holds_peer(&self.inbound, peer) && !should_initiate(local, peer) {
            return Ok(DialOutcome::Yield);
        }
        add_peer(&mut self.pending, peer);
        Ok(DialOutcome::Dial(addr.with(Protocol::P2pCircuit).with(Protocol::P2p(peer.duplicate()))))
    }

    /// Takes in an event of the endpoint, which may resolve an outbound
    /// attempt or begin or end an inbound one.
    pub fn observe(&mut self, ev: &Event)
        requires
            old(self).wf(),
        ensures
            final(self).wf(),
            final(self).binding_view() == old(self).binding_view(),
            final(self).pending_view() == pending_after_event(old(self).pending_view(), *ev),
            final(self).inbound_view() == inbound_after_event(old(self).inbound_view(), *ev),
    {
        match ev {
            Event::ConnectionEstablished { peer } => {
                drop_peer(&mut self.pending, peer);
                drop_peer(&mut self.inbound, peer);
            },
            Event::OutgoingConnectionError { peer: Some(p) } => drop_peer(&mut self.pending, p),
            Event::IncomingConnection { peer: Some(p) } => {
                if !holds_peer(&self.inbound, p) {
                    add_peer(&mut self.inbound, p);
                }
            },
            Event::IncomingConnectionError { peer: Some(p) } => drop_peer(&mut self.inbound, p),
            _ => {},
        }
    }

    /// Forgets the outstanding attempt to `peer`, if any: for a dial that the
    /// endpoint refused at once, so that no event will resolve it.
    pub fn abandon(&mut self, peer: &PeerId)
        requires
            old(self).wf(),
        ensures
            final(self).wf(),
            final(self).binding_view() == old(self).binding_view(),
            final(self).pending_view() == old(self).pending_view().filter(other_than(peer@)),
            final(self).inbound_view() == old(self).inbound_view(),
    {
        drop_peer(&mut self.pending, peer);
    }
}

proof fn lemma_filter_no_duplicates(s: Seq<Seq<u8>>, keep: spec_fn(Seq<u8>) -> bool)
    requires
        s.no_duplicates(),
    ensures
        s.filter(keep).no_duplicates(),
    decreases s.len(),
{
    reveal(Seq::filter);
    if s.len() > 0 {
        let init = s.drop_last();
        assert(init.no_duplicates()) by {
            assert forall|i: int, j: int| 0 <= i < init.len() && 0 <= j < init.len() && i != j implies init[i] != init[j] by {
                assert(init[i] == s[i] && init[j] == s[j]);
            }
        }
        lemma_filter_no_duplicates(init, keep);
        broadcast use vstd::seq_lib::group_filter_ensures;
        if keep(s.last()) {
            let f = init.filter(keep);
            assert(!f.contains(s.last())) by {
                if f.contains(s.last()) {
                    init.lemma_filter_contains_rev(keep, s.last());
                    let m = choose|m: int| 0 <= m < init.len() && init[m] == s.last();
                    assert(s[m] == s[s.len() - 1]);
                }
            }
            assert forall|i: int, j: int| 0 <= i < f.push(s.last()).len() && 0 <= j < f.push(s.last()).len() && i != j
                implies f.push(s.last())[i] != f.push(s.last())[j] by {
                if i < f.len() && j < f.len() {
                } else if i == f.len() {
                    assert(f.push(s.last())[j] == f[j]);
                } else {
                    assert(f.push(s.last())[i] == f[i]);
                }
            }
        }
    }
}

} // verus!
