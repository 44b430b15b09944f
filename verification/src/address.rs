//! Which texts name a node and which name a network location.
//!
//! Both questions are answered by libp2p's own parsers. Their grammars are
//! long (base 58, multihash codes, some forty address protocols), so the
//! answers are named here and the rest of the library reasons over the names.

use vstd::prelude::*;

verus! {

/// Whether `<libp2p::PeerId as FromStr>::from_str` accepts `text`: base 58
/// of a multihash that may stand for a node.
pub uninterp spec fn is_peer_id(text: Seq<char>) -> bool;

/// Whether `<libp2p::Multiaddr as FromStr>::from_str` accepts `text`: a chain
/// of `/protocol/value` parts, each in a form that protocol admits.
pub uninterp spec fn is_multiaddr(text: Seq<char>) -> bool;

/// Calls `<libp2p::PeerId as FromStr>::from_str` and keeps only whether it
/// succeeded. Trusted: the parser reads nothing but `text`, so the same text
/// always gets the same answer, and it answers what it does not accept with
/// an error.
#[verifier::external_body]
pub(crate) fn parses_as_peer_id(text: &str) -> (ok: bool)
    ensures
        ok == is_peer_id(text@),
{
    text.parse::<libp2p::PeerId>().is_ok()
}

/// Calls `<libp2p::Multiaddr as FromStr>::from_str` and keeps only whether
/// it succeeded. Trusted: the parser reads nothing but `text`, so the same
/// text always gets the same answer, and it answers what it does not accept
/// with an error.
#[verifier::external_body]
pub(crate) fn parses_as_multiaddr(text: &str) -> (ok: bool)
    ensures
        ok == is_multiaddr(text@),
{
    text.parse::<libp2p::Multiaddr>().is_ok()
}

/// What the two parsers said of the identifier and the location of one
/// request.
#[derive(Clone, Copy, Debug, PartialEq, Eq)]
pub struct Wellformed {
    pub peer: bool,
    pub address: bool,
}

/// The verdict on a pair of texts.
pub open spec fn wellformed(peer: Seq<char>, address: Seq<char>) -> Wellformed {
    Wellformed { peer: is_peer_id(peer), address: is_multiaddr(address) }
}

/// Asks both parsers about one pair of texts.
pub fn check_peer_address(peer: &str, address: &str) -> (verdict: Wellformed)
    ensures
        verdict == wellformed(peer@, address@),
{
    let peer_ok = parses_as_peer_id(peer);
    let address_ok = parses_as_multiaddr(address);
    Wellformed { peer: peer_ok, address: address_ok }
}

} // verus!
