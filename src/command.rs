//! The command vocabulary of a client node: `relay <peer-id>`,
//! `dial <peer-id>` and `quit`, with one-letter short forms.

use vstd::prelude::*;
use crate::peer::{PeerId, peer_id_decoding};

verus! {

/// A white-space character, as Unicode's `White_Space` property lists them.
pub open spec fn is_space(c: char) -> bool {
    let u = c as u32;
    u == 0x20 || (0x09 <= u <= 0x0d) || u == 0x85 || u == 0xa0 || u == 0x1680 || (0x2000 <= u
        <= 0x200a) || u == 0x2028 || u == 0x2029 || u == 0x202f || u == 0x205f || u == 0x3000
}

/// The first position at or after `i` that holds no white space (or the end).
pub open spec fn skip_space(s: Seq<char>, i: int) -> int
    decreases s.len() - i,
{
    if 0 <= i < s.len() && is_space(s[i]) {
        skip_space(s, i + 1)
    } else {
        i
    }
}

/// The first position at or after `i` that holds white space (or the end).
pub open spec fn word_end(s: Seq<char>, i: int) -> int
    decreases s.len() - i,
{
    if 0 <= i < s.len() && !is_space(s[i]) {
        word_end(s, i + 1)
    } else {
        i
    }
}

/// The bounds of the first word at or after position `i`, if there is one.
pub open spec fn word_from(s: Seq<char>, i: int) -> Option<(int, int)> {
    let a = skip_space(s, i);
    if a < s.len() {
        Some((a, word_end(s, a)))
    } else {
        None
    }
}

/// A command, as a value.
pub enum CommandView {
    Relay(Seq<u8>),
    Dial(Seq<u8>),
    Quit,
    Nothing,
}

/// Why a line is not a command.
pub enum CommandFault {
    /// `relay` or `dial` without a peer id after it.
    MissingPeer,
    /// The peer id does not decode; the decoder's message.
    BadPeer(Seq<char>),
    /// The first word is no command.
    Unknown,
}

/// The first word names the relay command.
pub open spec fn is_relay_word(w: Seq<char>) -> bool {
    w == "relay"@ || w == "r"@
}

/// The first word names the dial command.
pub open spec fn is_dial_word(w: Seq<char>) -> bool {
    w == "dial"@ || w == "d"@
}

/// The first word names the quit command.
pub open spec fn is_quit_word(w: Seq<char>) -> bool {
    w == "quit"@ || w == "q"@
}

/// The peer named by the word after position `e` of `s`.
pub open spec fn peer_arg(s: Seq<char>, e: int) -> Result<Seq<u8>, CommandFault> {
    match word_from(s, e) {
        None => Err(CommandFault::MissingPeer),
        Some((b, f)) => match peer_id_decoding(s.subrange(b, f)) {
            Ok(id) => Ok(id),
            Err(why) => Err(CommandFault::BadPeer(why)),
        },
    }
}

/// What the line `s` says.
pub open spec fn command_of(s: Seq<char>) -> Result<CommandView, CommandFault> {
    match word_from(s, 0) {
        None => Ok(CommandView::Nothing),
        Some((a, e)) => {
            let w = s.subrange(a, e);
            if is_relay_word(w) {
                match peer_arg(s, e) {
                    Ok(id) => Ok(CommandView::Relay(id)),
                    Err(f) => Err(f),
                }
            } else if is_dial_word(w) {
                match peer_arg(s, e) {
                    Ok(id) => Ok(CommandView::Dial(id)),
                    Err(f) => Err(f),
                }
            } else if is_quit_word(w) {
                Ok(CommandView::Quit)
            } else {
                Err(CommandFault::Unknown)
            }
        },
    }
}

/// A parsed command line.
pub enum Command {
    /// Register with the relay of this id.
    Relay(PeerId),
    /// Dial the peer of this id through the relay.
    Dial(PeerId),
    Quit,
    /// A blank line.
    Nothing,
}

impl View for Command {
    type V = CommandView;

    open spec fn view(&self) -> CommandView {
        match self {
            Command::Relay(p) => CommandView::Relay(p@),
            Command::Dial(p) => CommandView::Dial(p@),
            Command::Quit => CommandView::Quit,
            Command::Nothing => CommandView::Nothing,
        }
    }
}

/// Whether `c` is white space.
pub fn is_space_char(c: char) -> (r: bool)
    ensures
        r == is_space(c),
{
    let u = c as u32;
    u == 0x20 || (0x09 <= u && u <= 0x0d) || u == 0x85 || u == 0xa0 || u == 0x1680 || (0x2000 <= u
        && u <= 0x200a) || u == 0x2028 || u == 0x2029 || u == 0x202f || u == 0x205f || u == 0x3000
}

pub(crate) fn skip_space_from(s: &str, n: usize, i: usize) -> (r: usize)
    requires
        n == s@.len(),
        i <= n,
    ensures
        r == skip_space(s@, i as int),
        i <= r <= n,
        r < n ==> !is_space(s@[r as int]),
{
    let mut j = i;
    while j < n && is_space_char(s.get_char(j))
        invariant
            n == s@.len(),
            i <= j <= n,
            skip_space(s@, i as int) == skip_space(s@, j as int),
        decreases n - j,
    {
        j = j + 1;
    }
    j
}

pub(crate) fn word_end_from(s: &str, n: usize, i: usize) -> (r: usize)
    requires
        n == s@.len(),
        i <= n,
    ensures
        r == word_end(s@, i as int),
        i <= r <= n,
        i < n && !is_space(s@[i as int]) ==> r > i,
{
    let mut j = i;
    while j < n && !is_space_char(s.get_char(j))
        invariant
            n == s@.len(),
            i <= j <= n,
            word_end(s@, i as int) == word_end(s@, j as int),
        decreases n - j,
    {
        j = j + 1;
    }
    j
}

/// Finds the first word at or after position `i` of `s`.
fn next_word(s: &str, n: usize, i: usize) -> (r: Option<(usize, usize)>)
    requires
        n == s@.len(),
        i <= n,
    ensures
        match r {
            Some((a, e)) => word_from(s@, i as int) == Some((a as int, e as int)) && i <= a < e <= n,
            None => word_from(s@, i as int) is None,
        },
{
    let a = skip_space_from(s, n, i);
    if a < n {
        let e = word_end_from(s, n, a);
        Some((a, e))
    } else {
        None
    }
}

/// Whether positions `from..to` of `s` hold exactly `lit`.
pub fn text_is(s: &str, from: usize, to: usize, lit: &str) -> (r: bool)
    requires
        from <= to <= s@.len(),
    ensures
        r == (s@.subrange(from as int, to as int) == lit@),
{
    let m = lit.unicode_len();
    if to - from != m {
        return false;
    }
    let mut k: usize = 0;
    while k < m
        invariant
            from <= to <= s@.len(),
            m == lit@.len(),
            to - from == m,
            0 <= k <= m,
            forall|j: int| 0 <= j < k ==> s@[from + j] == lit@[j],
        decreases m - k,
    {
        if s.get_char(from + k) != lit.get_char(k) {
            assert(s@.subrange(from as int, to as int)[k as int] != lit@[k as int]);
            return false;
        }
        k = k + 1;
    }
    assert(s@.subrange(from as int, to as int) =~= lit@);
    true
}

/// The text that reports `fault`.
pub open spec fn fault_text(fault: CommandFault) -> Seq<char> {
    match fault {
        CommandFault::MissingPeer => "Please input peerid as the second param."@,
        CommandFault::BadPeer(why) => why + bad_peer_suffix(),
        CommandFault::Unknown => "Command invalid!"@,
    }
}

/// What follows the decoder's message when a peer id does not decode.
pub open spec fn bad_peer_suffix() -> Seq<char> {
    " - PeerId invalid!"@
}

/// Reads the peer id after position `e` of `s`.
fn read_peer(s: &str, n: usize, e: usize) -> (r: Result<PeerId, String>)
    requires
        n == s@.len(),
        e <= n,
    ensures
        match (r, peer_arg(s@, e as int)) {
            (Ok(p), Ok(id)) => p@ == id,
            (Err(m), Err(f)) => m@ == fault_text(f),
            _ => false,
        },
{
    match next_word(s, n, e) {
        None => Err(String::from_str("Please input peerid as the second param.")),
        Some((b, f)) => {
            let word = s.substring_char(b, f);
            peer_or_report(PeerId::parse(word))
        },
    }
}

/// Passes a decoded peer id on, and marks a decoding failure as an invalid peer id.
pub fn peer_or_report(decoded: Result<PeerId, String>) -> (r: Result<PeerId, String>)
    ensures
        match (decoded, r) {
            (Ok(p), Ok(q)) => q == p,
            (Err(why), Err(m)) => m@ == why@ + bad_peer_suffix(),
            _ => false,
        },
{
    match decoded {
        Ok(p) => Ok(p),
        Err(why) => Err(why.concat(" - PeerId invalid!")),
    }
}

/// Parses one command line.
pub fn parse_command(input: &str) -> (r: Result<Command, String>)
    ensures
        match (r, command_of(input@)) {
            (Ok(c), Ok(v)) => c@ == v,
            (Err(m), Err(f)) => m@ == fault_text(f),
            _ => false,
        },
{
    let n = input.unicode_len();
    match next_word(input, n, 0) {
        None => Ok(Command::Nothing),
        Some((a, e)) => {
            if text_is(input, a, e, "relay") || text_is(input, a, e, "r") {
                match read_peer(input, n, e) {
                    Ok(p) => Ok(Command::Relay(p)),
                    Err(m) => Err(m),
                }
            } else if text_is(input, a, e, "dial") || text_is(input, a, e, "d") {
                match read_peer(input, n, e) {
                    Ok(p) => Ok(Command::Dial(p)),
                    Err(m) => Err(m),
                }
            } else if text_is(input, a, e, "quit") || text_is(input, a, e, "q") {
                Ok(Command::Quit)
            } else {
                Err(String::from_str("Command invalid!"))
            }
        },
    }
}

} // verus!
