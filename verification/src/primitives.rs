//! The cryptographic and text primitives that this library takes from other
//! crates and from std.
//!
//! Every item here is believed, not proved: each doc comment names the outside
//! function and says what its contract claims of it. Results that take pages to
//! state (a cipher, a hash, a curve operation) are named by a spec function
//! without a body; beside the name stand only the short facts that the outside
//! documentation gives and that the rest of the library needs.
use vstd::prelude::*;
use vstd::utf8::{decode_utf8, valid_utf8};

use aes_gcm::aead::{Aead, KeyInit};
use argon2::password_hash::{PasswordHasher, PasswordVerifier};
use base64::Engine;
use ed25519_dalek::{Signer, Verifier};
use sha2::Digest;

verus! {

// ---------------------------------------------------------------------------
// Outside types that cross the boundary only as opaque error values.
// ---------------------------------------------------------------------------

#[verifier::external_type_specification]
#[verifier::external_body]
pub struct ExAeadError(aes_gcm::aead::Error);

#[verifier::external_type_specification]
#[verifier::external_body]
pub struct ExBase64DecodeError(base64::DecodeError);

#[verifier::external_type_specification]
#[verifier::external_body]
pub struct ExHkdfInvalidLength(hkdf::InvalidLength);

#[verifier::external_type_specification]
#[verifier::external_body]
pub struct ExArgon2Error(argon2::Error);

#[verifier::external_type_specification]
#[verifier::external_body]
pub struct ExPasswordHashError(argon2::password_hash::Error);

#[verifier::external_type_specification]
#[verifier::external_body]
pub struct ExSignatureError(ed25519_dalek::SignatureError);

#[verifier::external_type_specification]
#[verifier::external_body]
pub struct ExFromUtf8Error(std::string::FromUtf8Error);

// ---------------------------------------------------------------------------
// Randomness
// ---------------------------------------------------------------------------

/// `rand::RngCore::fill_bytes` on `rand::rngs::OsRng`: an array of `N` bytes
/// from the operating system's generator. Nothing is claimed of the bytes.
#[verifier::external_body]
pub(crate) fn os_random_bytes<const N: usize>() -> [u8; N] {
    let mut bytes = [0u8; N];
    rand::RngCore::fill_bytes(&mut rand::rngs::OsRng, &mut bytes);
    bytes
}

/// `rand::Rng::gen_range(0..bound)` on `rand::rngs::OsRng`: some index below
/// `bound` (the call panics on an empty range, hence the precondition).
#[verifier::external_body]
pub(crate) fn os_random_index(bound: usize) -> (index: usize)
    requires
        bound > 0,
    ensures
        index < bound,
{
    rand::Rng::gen_range(&mut rand::rngs::OsRng, 0..bound)
}

// ---------------------------------------------------------------------------
// AES-256-GCM (aes-gcm 0.10)
// ---------------------------------------------------------------------------

/// The most plaintext bytes that AES-GCM accepts (`aes_gcm::P_MAX`, 2^36).
pub const AES_GCM_MAX_PLAINTEXT: u64 = 0x10_0000_0000;

/// The ciphertext (with its 16-byte tag appended) that AES-256-GCM produces
/// for a key, a 96-bit nonce and a plaintext, with empty associated data.
pub uninterp spec fn aes256gcm_seal(key: Seq<u8>, nonce: Seq<u8>, plaintext: Seq<u8>) -> Seq<u8>;

/// What AES-256-GCM decryption gives back for a key, a nonce and a ciphertext
/// with its tag: the plaintext, or nothing when the tag does not authenticate.
pub uninterp spec fn aes256gcm_open(key: Seq<u8>, nonce: Seq<u8>, ciphertext: Seq<u8>) -> Option<Seq<u8>>;

/// `Aes256Gcm::new` followed by `Aead::encrypt`. The source refuses only a
/// plaintext longer than `P_MAX`; on success the result is the plaintext's
/// length plus the 16-byte tag, and (AEAD correctness) decrypting it with the
/// same key and nonce gives the plaintext back.
#[verifier::external_body]
pub(crate) fn aes256gcm_encrypt(key: &[u8; 32], nonce: &[u8; 12], plaintext: &[u8]) -> (res: Result<Vec<u8>, aes_gcm::aead::Error>)
    ensures
        res is Ok <==> plaintext@.len() <= AES_GCM_MAX_PLAINTEXT,
        res matches Ok(ct) ==> ct@ == aes256gcm_seal(key@, nonce@, plaintext@),
        res matches Ok(ct) ==> ct@.len() == plaintext@.len() + 16,
        res matches Ok(ct) ==> aes256gcm_open(key@, nonce@, ct@) == Some(plaintext@),
{
    let cipher = aes_gcm::Aes256Gcm::new(aes_gcm::Key::<aes_gcm::Aes256Gcm>::from_slice(key));
    cipher.encrypt(aes_gcm::Nonce::from_slice(nonce), plaintext)
}

/// `Aes256Gcm::new` followed by `Aead::decrypt`: the plaintext when the tag
/// authenticates; the source refuses any input shorter than the tag.
#[verifier::external_body]
pub(crate) fn aes256gcm_decrypt(key: &[u8; 32], nonce: &[u8; 12], ciphertext: &[u8]) -> (res: Result<Vec<u8>, aes_gcm::aead::Error>)
    ensures
        match res {
            Ok(pt) => aes256gcm_open(key@, nonce@, ciphertext@) == Some(pt@),
            Err(_) => aes256gcm_open(key@, nonce@, ciphertext@) is None,
        },
        ciphertext@.len() < 16 ==> res is Err,
{
    let cipher = aes_gcm::Aes256Gcm::new(aes_gcm::Key::<aes_gcm::Aes256Gcm>::from_slice(key));
    cipher.decrypt(aes_gcm::Nonce::from_slice(nonce), ciphertext)
}


// ---------------------------------------------------------------------------
// X25519 (x25519-dalek 2, `static_secrets`)
// ---------------------------------------------------------------------------

/// The X25519 public key of a 32-byte secret (the clamped scalar times the
/// base point, as Montgomery u-coordinate bytes).
pub uninterp spec fn x25519_public(secret: Seq<u8>) -> Seq<u8>;

/// The X25519 shared secret of a 32-byte secret and a peer's public key bytes.
pub uninterp spec fn x25519_shared(secret: Seq<u8>, public: Seq<u8>) -> Seq<u8>;

/// `PublicKey::from(&StaticSecret::from(secret))`, as bytes.
#[verifier::external_body]
pub(crate) fn x25519_public_key(secret: &[u8; 32]) -> (public: [u8; 32])
    ensures
        public@ == x25519_public(secret@),
{
    let secret = x25519_dalek::StaticSecret::from(*secret);
    x25519_dalek::PublicKey::from(&secret).to_bytes()
}

/// `StaticSecret::diffie_hellman` on `PublicKey::from(public)`, as bytes.
/// Besides the name, the contract states the Diffie-Hellman agreement that the
/// crate's documentation shows (Alice's and Bob's shared secrets are the
/// same): when `public` is the public key of some secret `peer`, the result is
/// what `peer` computes with the public key of `secret`.
#[verifier::external_body]
pub(crate) fn x25519_diffie_hellman(secret: &[u8; 32], public: &[u8; 32]) -> (shared: [u8; 32])
    ensures
        shared@ == x25519_shared(secret@, public@),
        forall|peer: Seq<u8>|
            peer.len() == 32 && public@ == x25519_public(peer) ==> shared@ == #[trigger] x25519_shared(
                peer,
                x25519_public(secret@),
            ),
{
    let secret = x25519_dalek::StaticSecret::from(*secret);
    secret.diffie_hellman(&x25519_dalek::PublicKey::from(*public)).to_bytes()
}

// ---------------------------------------------------------------------------
// Ed25519 (ed25519-dalek 2)
// ---------------------------------------------------------------------------

/// The compressed verifying key of an Ed25519 secret key.
pub uninterp spec fn ed25519_public(secret: Seq<u8>) -> Seq<u8>;

/// Whether 32 bytes decompress to an Edwards point (ZIP-215 rules), that is,
/// whether `VerifyingKey::from_bytes` accepts them.
pub uninterp spec fn ed25519_point_valid(public: Seq<u8>) -> bool;

/// The (deterministic) Ed25519 signature of a message under a secret key.
pub uninterp spec fn ed25519_signature(secret: Seq<u8>, message: Seq<u8>) -> Seq<u8>;

/// Whether a 64-byte signature verifies for a message under a verifying key.
pub uninterp spec fn ed25519_verifies(public: Seq<u8>, message: Seq<u8>, signature: Seq<u8>) -> bool;

/// `SigningKey::from_bytes(secret).verifying_key().to_bytes()`. A verifying
/// key produced by the crate is a point, so its bytes decompress again.
#[verifier::external_body]
pub(crate) fn ed25519_public_key(secret: &[u8; 32]) -> (public: [u8; 32])
    ensures
        public@ == ed25519_public(secret@),
        ed25519_point_valid(public@),
{
    ed25519_dalek::SigningKey::from_bytes(secret).verifying_key().to_bytes()
}

/// `Signer::sign` with `SigningKey::from_bytes(secret)`, as bytes. As the
/// crate's documentation shows, the signature verifies under the signing
/// key's own verifying key.
#[verifier::external_body]
pub(crate) fn ed25519_sign(secret: &[u8; 32], message: &[u8]) -> (signature: [u8; 64])
    ensures
        signature@ == ed25519_signature(secret@, message@),
        ed25519_verifies(ed25519_public(secret@), message@, signature@),
{
    ed25519_dalek::SigningKey::from_bytes(secret).sign(message).to_bytes()
}

/// `VerifyingKey::from_bytes`: succeeds exactly on the bytes of a point.
#[verifier::external_body]
pub(crate) fn ed25519_check_public(public: &[u8; 32]) -> (res: Result<(), ed25519_dalek::SignatureError>)
    ensures
        res is Ok <==> ed25519_point_valid(public@),
{
    ed25519_dalek::VerifyingKey::from_bytes(public).map(|_| ())
}

/// `Verifier::verify` of `VerifyingKey::from_bytes(public)` on
/// `Signature::from_bytes(signature)`, as a boolean.
#[verifier::external_body]
pub(crate) fn ed25519_verify(public: &[u8; 32], message: &[u8], signature: &[u8; 64]) -> (ok: bool)
    requires
        ed25519_point_valid(public@),
    ensures
        ok == ed25519_verifies(public@, message@, signature@),
{
    match ed25519_dalek::VerifyingKey::from_bytes(public) {
        Ok(key) => key.verify(message, &ed25519_dalek::Signature::from_bytes(signature)).is_ok(),
        Err(_) => false,
    }
}

// ---------------------------------------------------------------------------
// Hashing and key derivation (sha2 0.10, hkdf 0.12, argon2 0.5)
// ---------------------------------------------------------------------------

/// The SHA-256 digest of a byte string.
pub uninterp spec fn sha256(data: Seq<u8>) -> Seq<u8>;

/// `Sha256::digest`.
#[verifier::external_body]
pub(crate) fn sha256_digest(data: &[u8]) -> (digest: [u8; 32])
    ensures
        digest@ == sha256(data@),
{
    sha2::Sha256::digest(data).into()
}

/// The first 32 bytes of HKDF-SHA256 output for an input key, no salt, and an
/// info string.
pub uninterp spec fn hkdf_sha256(ikm: Seq<u8>, info: Seq<u8>) -> Seq<u8>;

/// `Hkdf::<Sha256>::new(None, ikm)` followed by `expand(info, 32 bytes)`.
/// The source refuses only outputs longer than 255 hash lengths, so 32 bytes
/// always succeed.
#[verifier::external_body]
pub(crate) fn hkdf_sha256_expand(ikm: &[u8], info: &[u8]) -> (res: Result<[u8; 32], hkdf::InvalidLength>)
    ensures
        res is Ok,
        res matches Ok(okm) ==> okm@ == hkdf_sha256(ikm@, info@),
{
    let mut okm = [0u8; 32];
    hkdf::Hkdf::<sha2::Sha256>::new(None, ikm).expand(info, &mut okm).map(|_| okm)
}

/// The 32-byte Argon2id (version 0x13) output for a password, a salt and the
/// memory, time and parallelism costs.
pub uninterp spec fn argon2id(password: Seq<u8>, salt: Seq<u8>, m_cost: u32, t_cost: u32, p_cost: u32) -> Seq<u8>;

/// `Params::new(m_cost, t_cost, p_cost, Some(32))`, `Argon2::new(Argon2id,
/// V0x13, params)` and `hash_password_into` a 32-byte buffer. With parameters
/// that `Params::new` accepts and a 16-byte salt, the source refuses only a
/// password longer than `u32::MAX` bytes.
#[verifier::external_body]
pub(crate) fn argon2id_hash(password: &[u8], salt: &[u8; 16], m_cost: u32, t_cost: u32, p_cost: u32) -> (res: Result<[u8; 32], argon2::Error>)
    requires
        1 <= p_cost <= 0xFF_FFFF,
        1 <= t_cost,
        8 <= m_cost,
        8 * p_cost <= m_cost,
    ensures
        res is Ok <==> password@.len() <= u32::MAX,
        res matches Ok(out) ==> out@ == argon2id(password@, salt@, m_cost, t_cost, p_cost),
{
    let params = argon2::Params::new(m_cost, t_cost, p_cost, Some(32))?;
    let argon = argon2::Argon2::new(argon2::Algorithm::Argon2id, argon2::Version::V0x13, params);
    let mut out = [0u8; 32];
    argon.hash_password_into(password, salt, &mut out).map(|_| out)
}

/// Whether a password matches a PHC-format password hash string under
/// `Argon2::default()` (false also when the string does not parse).
pub uninterp spec fn argon2_password_matches(password: Seq<u8>, phc: Seq<char>) -> bool;

/// `SaltString::generate(&mut OsRng)` and `Argon2::default().hash_password`,
/// rendered as a PHC string. The salt is random, so the string is not named;
/// as the `PasswordVerifier` documentation states, the password verifies
/// against the hash that was computed from it. With the default parameters
/// and a generated 16-byte salt, the source refuses only a password longer
/// than `MAX_PWD_LEN` (`u32::MAX`) bytes.
#[verifier::external_body]
pub(crate) fn argon2_hash_password(password: &[u8]) -> (res: Result<String, argon2::password_hash::Error>)
    ensures
        res is Ok <==> password@.len() <= u32::MAX,
        res matches Ok(phc) ==> argon2_password_matches(password@, phc@),
{
    let salt = argon2::password_hash::SaltString::generate(&mut argon2::password_hash::rand_core::OsRng);
    argon2::Argon2::default().hash_password(password, &salt).map(|hash| hash.to_string())
}

/// `PasswordHash::new(phc)` and `Argon2::default().verify_password`; a hash
/// string that does not parse matches no password.
#[verifier::external_body]
pub(crate) fn argon2_verify_password(password: &[u8], phc: &str) -> (ok: bool)
    ensures
        ok == argon2_password_matches(password@, phc@),
{
    match argon2::password_hash::PasswordHash::new(phc) {
        Ok(parsed) => argon2::Argon2::default().verify_password(password, &parsed).is_ok(),
        Err(_) => false,
    }
}

// ---------------------------------------------------------------------------
// Base64, standard alphabet with padding (base64 0.22, `STANDARD`)
// ---------------------------------------------------------------------------

/// The length of the padded base64 text of `n` bytes (RFC 4648).
pub open spec fn base64_len(n: nat) -> nat {
    if n % 3 == 0 {
        (n / 3) * 4
    } else {
        (n / 3) * 4 + 4
    }
}

/// The characters of the standard base64 alphabet and the padding character.
pub open spec fn is_base64_char(c: char) -> bool {
    ('A' <= c && c <= 'Z') || ('a' <= c && c <= 'z') || ('0' <= c && c <= '9') || c == '+' || c
        == '/' || c == '='
}

/// The padded standard base64 text of a byte string.
pub uninterp spec fn base64_encode(bytes: Seq<u8>) -> Seq<char>;

/// The bytes that the standard engine decodes from a text, or nothing when it
/// refuses the text.
pub uninterp spec fn base64_decode(text: Seq<char>) -> Option<Seq<u8>>;

/// `STANDARD.encode`. The source panics only when the output length overflows
/// `usize`. The text has the RFC 4648 length, uses only the alphabet and the
/// padding character, and decodes to the bytes it came from.
#[verifier::external_body]
pub(crate) fn base64_encode_bytes(bytes: &[u8]) -> (text: String)
    requires
        base64_len(bytes@.len()) <= usize::MAX,
    ensures
        text@ == base64_encode(bytes@),
        text@.len() == base64_len(bytes@.len()),
        forall|i: int| 0 <= i < text@.len() ==> is_base64_char(#[trigger] text@[i]),
        base64_decode(text@) == Some(bytes@),
{
    base64::engine::general_purpose::STANDARD.encode(bytes)
}

/// `STANDARD.decode`. The engine requires canonical padding and refuses set
/// trailing bits, so a text it accepts is the encoding of the bytes it gives,
/// with the RFC 4648 length of those bytes.
#[verifier::external_body]
pub(crate) fn base64_decode_text(text: &str) -> (res: Result<Vec<u8>, base64::DecodeError>)
    ensures
        match res {
            Ok(bytes) => base64_decode(text@) == Some(bytes@),
            Err(_) => base64_decode(text@) is None,
        },
        res matches Ok(bytes) ==> base64_encode(bytes@) == text@ && text@.len() == base64_len(bytes@.len()),
{
    base64::engine::general_purpose::STANDARD.decode(text)
}

// ---------------------------------------------------------------------------
// Calendar time (chrono 0.4)
// ---------------------------------------------------------------------------

/// The first second that chrono represents: January 1 of 262144 BCE, in Unix
/// seconds.
pub const CHRONO_MIN_UNIX_SECS: i64 = -8_334_601_228_800;

/// The last second that chrono represents: December 31 of 262142 CE,
/// 23:59:59, in Unix seconds.
pub const CHRONO_MAX_UNIX_SECS: i64 = 8_210_266_876_799;

/// The RFC 3339 text (`DateTime<Utc>::to_rfc3339`) of the UTC instant given
/// by Unix seconds and nanoseconds.
pub uninterp spec fn rfc3339_utc(secs: i64, nanos: u32) -> Seq<char>;

/// `DateTime::from_timestamp(secs, nanos)` followed by `to_rfc3339`. The
/// source gives an instant for every second between `CHRONO_MIN_UNIX_SECS`
/// and `CHRONO_MAX_UNIX_SECS` with nanoseconds below one second, and nothing
/// outside its range.
#[verifier::external_body]
pub(crate) fn rfc3339_of_timestamp(secs: i64, nanos: u32) -> (res: Option<String>)
    ensures
        CHRONO_MIN_UNIX_SECS <= secs <= CHRONO_MAX_UNIX_SECS && nanos < 1_000_000_000 ==> res is Some,
        res matches Some(text) ==> text@ == rfc3339_utc(secs, nanos),
{
    match chrono::DateTime::from_timestamp(secs, nanos) {
        Some(instant) => Some(instant.to_rfc3339()),
        None => None,
    }
}

// ---------------------------------------------------------------------------
// Wiping secrets (zeroize 1.9)
// ---------------------------------------------------------------------------

/// `Zeroize::zeroize` on a 32-byte array: each byte is overwritten with its
/// default, zero, by volatile writes that the compiler does not remove.
#[verifier::external_body]
pub(crate) fn zeroize_bytes(bytes: &mut [u8; 32])
    ensures
        final(bytes)@ == Seq::new(32, |i: int| 0u8),
{
    zeroize::Zeroize::zeroize(bytes)
}

// ---------------------------------------------------------------------------
// std text operations that vstd does not specify
// ---------------------------------------------------------------------------

/// `String::push`.
#[verifier::external_body]
pub(crate) fn push_char(s: &mut String, c: char)
    ensures
        final(s)@ == old(s)@.push(c),
{
    s.push(c)
}

/// `String::from_utf8`: succeeds exactly on valid UTF-8, whose characters
/// are then the decoded ones.
#[verifier::external_body]
pub(crate) fn string_from_utf8(bytes: Vec<u8>) -> (res: Result<String, std::string::FromUtf8Error>)
    ensures
        res is Ok <==> valid_utf8(bytes@),
        res matches Ok(s) ==> s@ == decode_utf8(bytes@),
{
    String::from_utf8(bytes)
}

} // verus!
