//! What the desktop client computes for its frontend: identity keys and their
//! storage text, session keys, and message and attachment encryption, all over
//! base64 text. Reading and writing the OS keychain is left to the caller,
//! which hands over what it read.
use vstd::prelude::*;
use vstd::utf8::{decode_utf8, encode_utf8, valid_utf8};

use crate::bytes::array_from_slice;
use crate::cipher::{decrypt, encrypt, random_symmetric_key, SymmetricKey};
use crate::identity::{keypair_of_private_bytes, wire_keys, wire_text, IdentityKeyPair, PublicIdentity};
use crate::primitives::{
    aes256gcm_open, base64_decode, base64_encode, base64_len, base64_decode_text, base64_encode_bytes, ed25519_public, x25519_public,
    AES_GCM_MAX_PLAINTEXT,
};
use crate::session::{initiator_session, responder_key, responder_session_bytes};

verus! {

broadcast use {vstd::utf8::encode_utf8_valid_utf8, vstd::utf8::encode_utf8_decode_utf8};

/// The keychain service under which the client stores its secrets.
pub const SERVICE: &'static str = "technology-communication";

/// Keychain entry of the public identity (wire format).
pub const PUBLIC_USER: &'static str = "identity-public";

/// Keychain entry of the private identity (base64 of 64 bytes).
pub const PRIVATE_USER: &'static str = "identity-private";

/// Keychain entry of the local master key (base64).
pub const LMK_USER: &'static str = "local-master-key";

/// Keychain entry of the remembered auth token.
pub const TOKEN_USER: &'static str = "auth-token";

/// The public identity handed to the frontend.
pub struct IdentityPayload {
    pub public_identity: String,
}

/// What an initiator publishes and keeps: the ephemeral public key and the
/// session key, both base64.
pub struct SessionInitPayload {
    pub ephemeral_pub: String,
    pub session_key: String,
}

/// An encrypted message: ciphertext and nonce, both base64.
pub struct CipherPayload {
    pub ciphertext: String,
    pub nonce: String,
}

/// An encrypted attachment with the fresh key and the nonce that open it, all
/// base64.
pub struct AttachmentCipherPayload {
    pub ciphertext: String,
    pub key: String,
    pub nonce: String,
}

/// Whether a result is the error with the given text.
pub open spec fn fails_with<T>(res: Result<T, String>, text: Seq<char>) -> bool {
    match res {
        Err(m) => m@ == text,
        Ok(_) => false,
    }
}

/// The 32-byte key that a base64 text holds.
pub open spec fn key_of_text(text: Seq<char>) -> Option<Seq<u8>> {
    match base64_decode(text) {
        Some(bytes) => if bytes.len() == 32 {
            Some(bytes)
        } else {
            None
        },
        None => None,
    }
}

/// The 12-byte nonce that a base64 text holds.
pub open spec fn nonce_of_text(text: Seq<char>) -> Option<Seq<u8>> {
    match base64_decode(text) {
        Some(bytes) => if bytes.len() == 12 {
            Some(bytes)
        } else {
            None
        },
        None => None,
    }
}

/// The key pair (X25519 secret, Ed25519 secret) that a stored private text
/// holds: base64 of 64 bytes.
pub open spec fn keypair_of_text(text: Seq<char>) -> Option<(Seq<u8>, Seq<u8>)> {
    match base64_decode(text) {
        Some(bytes) => if bytes.len() == 64 {
            Some(keypair_of_private_bytes(bytes))
        } else {
            None
        },
        None => None,
    }
}

/// The bytes that an attachment's texts open to.
pub open spec fn attachment_plaintext(ciphertext: Seq<char>, key: Seq<char>, nonce: Seq<char>) -> Option<Seq<u8>> {
    match (key_of_text(key), base64_decode(ciphertext), nonce_of_text(nonce)) {
        (Some(k), Some(c), Some(n)) => aes256gcm_open(k, n, c),
        _ => None,
    }
}

/// The text that a message's texts open to: the decrypted bytes must be UTF-8.
pub open spec fn message_plaintext(session_key: Seq<char>, ciphertext: Seq<char>, nonce: Seq<char>) -> Option<Seq<char>> {
    match attachment_plaintext(ciphertext, session_key, nonce) {
        Some(p) => if valid_utf8(p) {
            Some(decode_utf8(p))
        } else {
            None
        },
        None => None,
    }
}

/// The refusals of opening texts whose base64 is well formed: a key that is
/// not 32 bytes, then a nonce that is not 12 bytes, then a ciphertext that
/// does not authenticate, each with its message.
pub open spec fn refusals_of_opening<T>(res: Result<T, String>, key: Seq<char>, ciphertext: Seq<char>, nonce: Seq<char>) -> bool {
    &&& (base64_decode(key) matches Some(k) && k.len() != 32) ==> fails_with(res, "invalid key length"@)
    &&& (key_of_text(key) is Some && base64_decode(ciphertext) is Some && (base64_decode(nonce) matches Some(n)
        && n.len() != 12)) ==> fails_with(res, "invalid nonce"@)
    &&& (key_of_text(key) is Some && base64_decode(ciphertext) is Some && nonce_of_text(nonce) is Some
        && attachment_plaintext(ciphertext, key, nonce) is None) ==> fails_with(
        res,
        "decryption failed (wrong key or corrupted data)"@,
    )
}

/// Read a symmetric key from base64 text.
pub fn parse_key(text: &str) -> (res: Result<SymmetricKey, String>)
    ensures
        res is Ok <==> key_of_text(text@) is Some,
        res matches Ok(k) ==> Some(k@) == key_of_text(text@),
        (base64_decode(text@) matches Some(b) && b.len() != 32) ==> fails_with(res, "invalid key length"@),
{
    let bytes = match base64_decode_text(text) {
        Ok(b) => b,
        Err(e) => return Err(e.to_string()),
    };
    if bytes.len() != 32 {
        return Err(String::from_str("invalid key length"));
    }
    Ok(SymmetricKey::from_bytes(array_from_slice(bytes.as_slice())))
}

/// Read a nonce from base64 text.
fn parse_nonce(text: &str) -> (res: Result<[u8; 12], String>)
    ensures
        res is Ok <==> nonce_of_text(text@) is Some,
        res matches Ok(n) ==> Some(n@) == nonce_of_text(text@),
        (base64_decode(text@) matches Some(b) && b.len() != 12) ==> fails_with(res, "invalid nonce"@),
{
    let bytes = match base64_decode_text(text) {
        Ok(b) => b,
        Err(e) => return Err(e.to_string()),
    };
    if bytes.len() != 12 {
        return Err(String::from_str("invalid nonce"));
    }
    Ok(array_from_slice(bytes.as_slice()))
}

/// A fresh identity: `(public wire text, private storage text)`. Reading the
/// private text back gives a key pair whose public wire text is the first.
pub fn generate_identity() -> (texts: (String, String))
    ensures
        exists|identity_secret: Seq<u8>, signing_key: Seq<u8>|
            keypair_of_text(texts.1@) == Some((identity_secret, signing_key)) && texts.0@ == wire_text(
                x25519_public(identity_secret),
                ed25519_public(signing_key),
            ) && wire_keys(texts.0@) == Some((x25519_public(identity_secret), ed25519_public(signing_key))),
{
    let kp = IdentityKeyPair::generate();
    let public_wire = kp.public().to_wire();
    let private_bytes = kp.to_private_bytes();
    let private_wire = base64_encode_bytes(private_bytes.as_slice());
    proof {
        crate::identity::lemma_private_bytes_roundtrip(kp.identity_secret@, kp.signing_key@);
    }
    (public_wire, private_wire)
}

/// Reconstruct an identity key pair from its base64 private storage text.
pub fn parse_keypair(private_wire: &str) -> (res: Result<IdentityKeyPair, String>)
    ensures
        res is Ok <==> keypair_of_text(private_wire@) is Some,
        res matches Ok(kp) ==> Some((kp.identity_secret@, kp.signing_key@)) == keypair_of_text(private_wire@),
        (base64_decode(private_wire@) matches Some(b) && b.len() != 64) ==> fails_with(res, "invalid private key length"@),
{
    let bytes = match base64_decode_text(private_wire) {
        Ok(b) => b,
        Err(e) => return Err(e.to_string()),
    };
    if bytes.len() != 64 {
        return Err(String::from_str("invalid private key length"));
    }
    let arr: [u8; 64] = array_from_slice(bytes.as_slice());
    match IdentityKeyPair::from_private_bytes(&arr) {
        Ok(kp) => Ok(kp),
        Err(e) => Err(e.message()),
    }
}

/// The key pair stored in the keychain, if one is.
pub fn load_keypair(stored: Option<&str>) -> (res: Result<IdentityKeyPair, String>)
    ensures
        stored is None ==> fails_with(res, "no identity found"@),
        stored matches Some(t) ==> (res is Ok <==> keypair_of_text(t@) is Some),
        res matches Ok(kp) ==> stored matches Some(t) && Some((kp.identity_secret@, kp.signing_key@))
            == keypair_of_text(t@),
{
    match stored {
        None => Err(String::from_str("no identity found")),
        Some(t) => parse_keypair(t),
    }
}

/// Initiator: derive a session key with the peer named by its public wire
/// text, returning the ephemeral public key (to publish) and the session key.
/// Whoever holds the secret behind the peer's identity key derives the same
/// session key from this side's identity public key and the published
/// ephemeral key.
pub fn initiate_session(stored: Option<&str>, peer_public_identity: &str) -> (res: Result<SessionInitPayload, String>)
    ensures
        res is Ok <==> (stored matches Some(t) && keypair_of_text(t@) is Some && wire_keys(
            peer_public_identity@,
        ) is Some),
        res matches Ok(p) ==> (stored matches Some(t) && keypair_of_text(t@) matches Some((a, _))
            && wire_keys(peer_public_identity@) matches Some((peer_pub, _)) && base64_decode(
            p.ephemeral_pub@,
        ) matches Some(eph) && base64_decode(p.session_key@) matches Some(key) && p.session_key@
            == base64_encode(key) && forall|peer: Seq<u8>|
            peer.len() == 32 && peer_pub == x25519_public(peer) ==> key == #[trigger] responder_key(
                peer,
                x25519_public(a),
                eph,
            )),
{
    let kp = match load_keypair(stored) {
        Ok(kp) => kp,
        Err(e) => return Err(e),
    };
    let peer = match PublicIdentity::from_wire(peer_public_identity) {
        Ok(p) => p,
        Err(e) => return Err(e.message()),
    };
    let setup = initiator_session(&kp.identity_secret, &peer.identity_pub);
    let ephemeral_pub = base64_encode_bytes(setup.ephemeral_pub.as_slice());
    let session_key = base64_encode_bytes(setup.session_key.as_bytes().as_slice());
    Ok(SessionInitPayload { ephemeral_pub, session_key })
}

/// Responder: derive the same session key from the initiator's public wire
/// text and published ephemeral key (base64 of 32 bytes).
pub fn complete_session(stored: Option<&str>, peer_public_identity: &str, peer_ephemeral_pub: &str) -> (res: Result<String, String>)
    ensures
        res is Ok <==> (stored matches Some(t) && keypair_of_text(t@) is Some && wire_keys(
            peer_public_identity@,
        ) is Some && key_of_text(peer_ephemeral_pub@) is Some),
        res matches Ok(k) ==> (stored matches Some(t) && keypair_of_text(t@) matches Some((b, _))
            && wire_keys(peer_public_identity@) matches Some((peer_pub, _)) && key_of_text(
            peer_ephemeral_pub@,
        ) matches Some(eph) && k@ == base64_encode(responder_key(b, peer_pub, eph)) && base64_decode(k@)
            == Some(responder_key(b, peer_pub, eph))),
        (stored is Some && keypair_of_text(stored->0@) is Some && wire_keys(peer_public_identity@) is Some
            && (base64_decode(peer_ephemeral_pub@) matches Some(e) && e.len() != 32)) ==> fails_with(res, "invalid ephemeral key"@),
{
    let kp = match load_keypair(stored) {
        Ok(kp) => kp,
        Err(e) => return Err(e),
    };
    let peer = match PublicIdentity::from_wire(peer_public_identity) {
        Ok(p) => p,
        Err(e) => return Err(e.message()),
    };
    let eph_bytes = match base64_decode_text(peer_ephemeral_pub) {
        Ok(b) => b,
        Err(e) => return Err(e.to_string()),
    };
    if eph_bytes.len() != 32 {
        return Err(String::from_str("invalid ephemeral key"));
    }
    let eph: [u8; 32] = array_from_slice(eph_bytes.as_slice());
    let key = responder_session_bytes(&kp.identity_secret, &peer.identity_pub, &eph);
    Ok(base64_encode_bytes(key.as_bytes().as_slice()))
}

/// Encrypt a message body with a base64 session key. Decrypting the result
/// with the same key gives the body back.
pub fn encrypt_message(session_key: &str, plaintext: &str) -> (res: Result<CipherPayload, String>)
    requires
        base64_len(encode_utf8(plaintext@).len() + 16) <= usize::MAX,
    ensures
        res is Ok <==> (key_of_text(session_key@) is Some && encode_utf8(plaintext@).len()
            <= AES_GCM_MAX_PLAINTEXT),
        res matches Ok(p) ==> message_plaintext(session_key@, p.ciphertext@, p.nonce@) == Some(plaintext@),
{
    let key = match parse_key(session_key) {
        Ok(k) => k,
        Err(e) => return Err(e),
    };
    let (ct, nonce) = match encrypt(&key, plaintext.as_bytes()) {
        Ok(pair) => pair,
        Err(e) => return Err(e.message()),
    };
    let ciphertext = base64_encode_bytes(ct.as_slice());
    let nonce_text = base64_encode_bytes(nonce.as_slice());
    Ok(CipherPayload { ciphertext, nonce: nonce_text })
}

/// Decrypt a message with a base64 session key, returning its body.
pub fn decrypt_message(session_key: &str, ciphertext: &str, nonce: &str) -> (res: Result<String, String>)
    ensures
        res is Ok <==> message_plaintext(session_key@, ciphertext@, nonce@) is Some,
        res matches Ok(s) ==> Some(s@) == message_plaintext(session_key@, ciphertext@, nonce@),
        refusals_of_opening(res, session_key@, ciphertext@, nonce@),
{
    let key = match parse_key(session_key) {
        Ok(k) => k,
        Err(e) => return Err(e),
    };
    let ct = match base64_decode_text(ciphertext) {
        Ok(b) => b,
        Err(e) => return Err(e.to_string()),
    };
    let nonce = match parse_nonce(nonce) {
        Ok(n) => n,
        Err(e) => return Err(e),
    };
    let pt = match decrypt(&key, ct.as_slice(), &nonce) {
        Ok(p) => p,
        Err(e) => return Err(e.message()),
    };
    match crate::primitives::string_from_utf8(pt) {
        Ok(s) => Ok(s),
        Err(e) => Err(e.to_string()),
    }
}

/// Encrypt an attachment under a fresh random key, returning the ciphertext
/// with the key and nonce that open it.
pub fn encrypt_attachment(data: Vec<u8>) -> (res: Result<AttachmentCipherPayload, String>)
    requires
        base64_len(data@.len() + 16) <= usize::MAX,
    ensures
        res is Ok <==> data@.len() <= AES_GCM_MAX_PLAINTEXT,
        res matches Ok(p) ==> attachment_plaintext(p.ciphertext@, p.key@, p.nonce@) == Some(data@),
{
    let key = random_symmetric_key();
    let (ct, nonce) = match encrypt(&key, data.as_slice()) {
        Ok(pair) => pair,
        Err(e) => return Err(e.message()),
    };
    let ciphertext = base64_encode_bytes(ct.as_slice());
    let key_text = base64_encode_bytes(key.as_bytes().as_slice());
    let nonce_text = base64_encode_bytes(nonce.as_slice());
    Ok(AttachmentCipherPayload { ciphertext, key: key_text, nonce: nonce_text })
}

/// Decrypt an attachment ciphertext using its key and nonce.
pub fn decrypt_attachment(ciphertext: &str, key: &str, nonce: &str) -> (res: Result<Vec<u8>, String>)
    ensures
        res is Ok <==> attachment_plaintext(ciphertext@, key@, nonce@) is Some,
        res matches Ok(d) ==> Some(d@) == attachment_plaintext(ciphertext@, key@, nonce@),
        refusals_of_opening(res, key@, ciphertext@, nonce@),
{
    let key = match parse_key(key) {
        Ok(k) => k,
        Err(e) => return Err(e),
    };
    let ct = match base64_decode_text(ciphertext) {
        Ok(b) => b,
        Err(e) => return Err(e.to_string()),
    };
    let nonce = match parse_nonce(nonce) {
        Ok(n) => n,
        Err(e) => return Err(e),
    };
    match decrypt(&key, ct.as_slice(), &nonce) {
        Ok(p) => Ok(p),
        Err(e) => Err(e.message()),
    }
}

/// The local master key (base64) used to encrypt data at rest: the stored
/// one, or a fresh random one that the caller must store (the flag says so).
pub fn local_master_key(stored: Option<String>) -> (res: (String, bool))
    ensures
        stored matches Some(k) ==> res.0 == k && !res.1,
        stored is None ==> res.1 && res.0@.len() == 44 && (exists|key: Seq<u8>|
            key.len() == 32 && res.0@ == base64_encode(key) && key_of_text(res.0@) == Some(key)),
{
    match stored {
        Some(k) => (k, false),
        None => {
            let lmk = random_symmetric_key();
            let text = base64_encode_bytes(lmk.as_bytes().as_slice());
            assert(key_of_text(text@) == Some(lmk@));
            (text, true)
        },
    }
}

} // verus!
