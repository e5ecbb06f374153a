//! 1:1 session key agreement with forward secrecy.
//!
//! The initiator draws an ephemeral X25519 secret and derives the session key
//! from two Diffie-Hellman outputs; the responder derives the same key once it
//! receives the ephemeral public key.
use vstd::prelude::*;

use crate::bytes::concat_to_array;
use crate::cipher::SymmetricKey;
use crate::primitives::{
    hkdf_sha256, hkdf_sha256_expand, os_random_bytes, x25519_diffie_hellman, x25519_public,
    x25519_public_key, x25519_shared, zeroize_bytes,
};

verus! {

/// Errors of session derivation (kept for API completeness: derivation
/// itself cannot fail).
pub type SessionError = crate::CryptoError;

/// Result of initiating a session: the ephemeral public key to send to the
/// peer and the derived session key.
pub struct SessionSetup {
    pub ephemeral_pub: [u8; 32],
    pub session_key: SymmetricKey,
}

/// The HKDF info string that binds derived keys to this protocol.
pub open spec fn session_key_info() -> Seq<u8> {
    vstd::utf8::encode_utf8("sealed-chat session key v1"@)
}

/// The session key derived from two Diffie-Hellman outputs.
pub open spec fn session_key_of(first: Seq<u8>, second: Seq<u8>) -> Seq<u8> {
    hkdf_sha256(first + second, session_key_info())
}

/// The key that the initiator derives from its identity secret, the peer's
/// identity public key and its ephemeral secret.
pub open spec fn initiator_key(self_identity: Seq<u8>, peer_identity_pub: Seq<u8>, ephemeral: Seq<u8>) -> Seq<u8> {
    session_key_of(x25519_shared(ephemeral, peer_identity_pub), x25519_shared(self_identity, peer_identity_pub))
}

/// The key that the responder derives from its identity secret, the
/// initiator's identity public key and the initiator's ephemeral public key.
pub open spec fn responder_key(self_identity: Seq<u8>, peer_identity_pub: Seq<u8>, peer_ephemeral_pub: Seq<u8>) -> Seq<u8> {
    session_key_of(
        x25519_shared(self_identity, peer_ephemeral_pub),
        x25519_shared(self_identity, peer_identity_pub),
    )
}

/// HKDF-SHA256 over the concatenation of the two shared secrets.
fn derive(first: &[u8; 32], second: &[u8; 32]) -> (key: SymmetricKey)
    ensures
        key@ == session_key_of(first@, second@),
{
    let ikm: [u8; 64] = concat_to_array(first.as_slice(), second.as_slice());
    let info = "sealed-chat session key v1".as_bytes();
    match hkdf_sha256_expand(ikm.as_slice(), info) {
        Ok(okm) => SymmetricKey(okm),
        Err(_) => {
            // HKDF-SHA256 always yields 32 bytes.
            proof {
                assert(false);
            }
            SymmetricKey([0u8; 32])
        },
    }
}

/// Initiator side with a given ephemeral secret. Whoever holds the secret
/// behind `peer_identity_pub` derives the same key from the returned
/// ephemeral public key and this side's identity public key.
pub fn initiator_session_with(self_identity: &[u8; 32], peer_identity_pub: &[u8; 32], ephemeral: &[u8; 32]) -> (setup: SessionSetup)
    ensures
        setup.ephemeral_pub@ == x25519_public(ephemeral@),
        setup.session_key@ == initiator_key(self_identity@, peer_identity_pub@, ephemeral@),
        forall|peer: Seq<u8>|
            peer.len() == 32 && peer_identity_pub@ == x25519_public(peer) ==> setup.session_key@
                == #[trigger] responder_key(peer, x25519_public(self_identity@), setup.ephemeral_pub@),
{
    let ephemeral_pub = x25519_public_key(ephemeral);
    let first = x25519_diffie_hellman(ephemeral, peer_identity_pub);
    let second = x25519_diffie_hellman(self_identity, peer_identity_pub);
    let session_key = derive(&first, &second);
    SessionSetup { ephemeral_pub, session_key }
}

/// Initiator side: draws a fresh ephemeral secret, which is wiped once the
/// key is derived. `self_identity` and
/// `peer_identity_pub` are the two parties' long-term identity keys.
pub fn initiator_session(self_identity: &[u8; 32], peer_identity_pub: &[u8; 32]) -> (setup: SessionSetup)
    ensures
        exists|ephemeral: Seq<u8>|
            ephemeral.len() == 32 && setup.ephemeral_pub@ == x25519_public(ephemeral) && setup.session_key@
                == initiator_key(self_identity@, peer_identity_pub@, ephemeral),
        forall|peer: Seq<u8>|
            peer.len() == 32 && peer_identity_pub@ == x25519_public(peer) ==> setup.session_key@
                == #[trigger] responder_key(peer, x25519_public(self_identity@), setup.ephemeral_pub@),
{
    let mut ephemeral: [u8; 32] = os_random_bytes();
    let ghost drawn = ephemeral@;
    let setup = initiator_session_with(self_identity, peer_identity_pub, &ephemeral);
    // The ephemeral secret is not needed any more: wipe it.
    zeroize_bytes(&mut ephemeral);
    assert(setup.ephemeral_pub@ == x25519_public(drawn));
    setup
}

/// Responder side. `self_identity` is the responder's identity secret,
/// `peer_identity_pub` the initiator's identity public key, and
/// `peer_ephemeral_pub` the ephemeral key sent by the initiator.
pub fn responder_session(self_identity: &[u8; 32], peer_identity_pub: &[u8; 32], peer_ephemeral_pub: &[u8; 32]) -> (key: SymmetricKey)
    ensures
        key@ == responder_key(self_identity@, peer_identity_pub@, peer_ephemeral_pub@),
{
    let first = x25519_diffie_hellman(self_identity, peer_ephemeral_pub);
    let second = x25519_diffie_hellman(self_identity, peer_identity_pub);
    derive(&first, &second)
}

/// Responder-side derivation taking the initiator's ephemeral key as raw bytes.
pub fn responder_session_bytes(self_identity: &[u8; 32], peer_identity_pub: &[u8; 32], peer_ephemeral_pub: &[u8; 32]) -> (key: SymmetricKey)
    ensures
        key@ == responder_key(self_identity@, peer_identity_pub@, peer_ephemeral_pub@),
{
    responder_session(self_identity, peer_identity_pub, peer_ephemeral_pub)
}

/// Convenience wrapper around [`initiator_session`].
pub fn derive_session_key(self_identity: &[u8; 32], peer_identity_pub: &[u8; 32]) -> (setup: SessionSetup)
    ensures
        exists|ephemeral: Seq<u8>|
            ephemeral.len() == 32 && setup.ephemeral_pub@ == x25519_public(ephemeral) && setup.session_key@
                == initiator_key(self_identity@, peer_identity_pub@, ephemeral),
        forall|peer: Seq<u8>|
            peer.len() == 32 && peer_identity_pub@ == x25519_public(peer) ==> setup.session_key@
                == #[trigger] responder_key(peer, x25519_public(self_identity@), setup.ephemeral_pub@),
{
    initiator_session(self_identity, peer_identity_pub)
}

} // verus!
