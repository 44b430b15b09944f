//! The node's credential and the public identifier derived from it.

use vstd::prelude::*;

verus! {

/// `libp2p::identity::Keypair`, the credential of a node. Nothing inside it
/// is visible to the verifier; the library only keeps it for the transport
/// and the gossip signer.
#[verifier::external_type_specification]
#[verifier::external_body]
pub struct ExKeypair(libp2p::identity::Keypair);

/// Calls `libp2p::identity::Keypair::generate_ed25519`. The key is drawn
/// from the system's random source, so nothing is claimed of the result.
#[verifier::external_body]
pub(crate) fn generate_keypair() -> libp2p::identity::Keypair {
    libp2p::identity::Keypair::generate_ed25519()
}

/// Calls `libp2p::PeerId::from_public_key` on the public half of `keypair`
/// and writes the identifier in base 58 (`PeerId::to_base58`). The credential
/// is opaque here, so nothing is claimed of the text.
#[verifier::external_body]
pub(crate) fn derive_node_id(keypair: &libp2p::identity::Keypair) -> String {
    libp2p::PeerId::from_public_key(&keypair.public()).to_base58()
}

} // verus!
