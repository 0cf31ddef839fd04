//! Peer identifiers, held as the bytes of their multihash.

use vstd::prelude::*;

verus! {

/// Identifier of a peer: the binary multihash that names it on the network.
#[derive(Clone, Debug, PartialEq, Eq)]
pub struct PeerId {
    pub bytes: Vec<u8>,
}

impl View for PeerId {
    type V = Seq<u8>;

    open spec fn view(&self) -> Seq<u8> {
        self.bytes@
    }
}

/// What libp2p's textual peer-id decoding yields for a text: the multihash
/// bytes, or the text of its error where the text is not a valid peer id.
pub uninterp spec fn peer_id_decoding(text: Seq<char>) -> Result<Seq<u8>, Seq<char>>;

/// Relies on libp2p's `PeerId::from_str` (base-58 decoding, then multihash
/// validation), `PeerId::to_bytes`, and the `Display` text of its
/// `ParseError`: the outcome depends on the text alone.
#[verifier::external_body]
fn decode_peer_id(text: &str) -> (r: Result<Vec<u8>, String>)
    ensures
        match r {
            Ok(b) => peer_id_decoding(text@) == Ok::<Seq<u8>, Seq<char>>(b@),
            Err(m) => peer_id_decoding(text@) == Err::<Seq<u8>, Seq<char>>(m@),
        },
{
    match <libp2p::PeerId as std::str::FromStr>::from_str(text) {
        Ok(id) => Ok(id.to_bytes()),
        Err(e) => Err(e.to_string()),
    }
}

/// Strict lexicographic order on byte strings, comparing from position `i` on.
pub open spec fn lex_less_from(a: Seq<u8>, b: Seq<u8>, i: int) -> bool
    decreases a.len() - i,
{
    if i < 0 || i >= a.len() {
        0 <= i < b.len()
    } else if i >= b.len() {
        false
    } else if a[i] != b[i] {
        a[i] < b[i]
    } else {
        lex_less_from(a, b, i + 1)
    }
}

/// `a` comes strictly before `b` in lexicographic byte order.
pub open spec fn lex_less(a: Seq<u8>, b: Seq<u8>) -> bool {
    lex_less_from(a, b, 0)
}

proof fn lemma_lex_from_asym(a: Seq<u8>, b: Seq<u8>, i: int)
    requires
        0 <= i <= a.len(),
        i <= b.len(),
        a != b,
        forall|j: int| 0 <= j < i ==> a[j] == b[j],
    ensures
        lex_less_from(a, b, i) != lex_less_from(b, a, i),
    decreases a.len() - i,
{
    if i == a.len() && i == b.len() {
        assert(a =~= b);
    } else if i < a.len() && i < b.len() && a[i] == b[i] {
        lemma_lex_from_asym(a, b, i + 1);
    }
}

/// Of two distinct byte strings, exactly one comes first.
pub proof fn lemma_lex_exactly_one(a: Seq<u8>, b: Seq<u8>)
    requires
        a != b,
    ensures
        lex_less(a, b) != lex_less(b, a),
{
    lemma_lex_from_asym(a, b, 0);
}

impl PeerId {
    /// Parses the textual (base-58) form of a peer id.
    pub fn parse(text: &str) -> (r: Result<PeerId, String>)
        ensures
            match r {
                Ok(p) => peer_id_decoding(text@) == Ok::<Seq<u8>, Seq<char>>(p@),
                Err(m) => peer_id_decoding(text@) == Err::<Seq<u8>, Seq<char>>(m@),
            },
    {
        match decode_peer_id(text) {
            Ok(bytes) => Ok(PeerId { bytes }),
            Err(e) => Err(e),
        }
    }

    /// A copy of this identifier.
    pub fn duplicate(&self) -> (r: PeerId)
        ensures
            r@ == self@,
    {
        PeerId { bytes: self.bytes.clone() }
    }

    /// Whether both identifiers name the same peer.
    pub fn same(&self, other: &PeerId) -> (r: bool)
        ensures
            r == (self@ == other@),
    {
        let n = self.bytes.len();
        if n != other.bytes.len() {
            return false;
        }
        let mut i: usize = 0;
        while i < n
            invariant
                n == self@.len(),
                n == other@.len(),
                0 <= i <= n,
                forall|j: int| 0 <= j < i ==> self@[j] == other@[j],
            decreases n - i,
        {
            if self.bytes[i] != other.bytes[i] {
                return false;
            }
            i = i + 1;
        }
        assert(self@ =~= other@);
        true
    }

    /// Whether this identifier comes strictly before `other` in byte order.
    pub fn precedes(&self, other: &PeerId) -> (r: bool)
        ensures
            r == lex_less(self@, other@),
    {
        let mut i: usize = 0;
        while i < self.bytes.len() && i < other.bytes.len()
            invariant
                0 <= i <= self@.len(),
                i <= other@.len(),
                lex_less(self@, other@) == lex_less_from(self@, other@, i as int),
            decreases self@.len() - i,
        {
            if self.bytes[i] != other.bytes[i] {
                return self.bytes[i] < other.bytes[i];
            }
            i = i + 1;
        }
        i < other.bytes.len()
    }
}

} // verus!
