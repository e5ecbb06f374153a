//! Symmetric encryption: AES-256-GCM with random 96-bit nonces.
use vstd::prelude::*;

use crate::primitives::{
    aes256gcm_decrypt, aes256gcm_encrypt, aes256gcm_open, aes256gcm_seal, os_random_bytes,
    AES_GCM_MAX_PLAINTEXT,
};
use crate::{CryptoError, KEY_LEN, NONCE_LEN};

verus! {

/// A 32-byte symmetric key.
#[derive(Clone)]
pub struct SymmetricKey(pub [u8; KEY_LEN]);

impl View for SymmetricKey {
    type V = Seq<u8>;

    open spec fn view(&self) -> Seq<u8> {
        self.0@
    }
}

impl SymmetricKey {
    pub fn from_bytes(bytes: [u8; KEY_LEN]) -> (key: Self)
        ensures
            key.0 == bytes,
    {
        SymmetricKey(bytes)
    }

    pub fn as_bytes(&self) -> (bytes: &[u8; KEY_LEN])
        ensures
            *bytes == self.0,
    {
        &self.0
    }
}

impl AsRef<[u8]> for SymmetricKey {
    /// The key's 32 bytes.
    fn as_ref(&self) -> (bytes: &[u8])
        ensures
            bytes@ == self@,
    {
        self.0.as_slice()
    }
}

/// A fresh random 256-bit key.
pub fn random_symmetric_key() -> (key: SymmetricKey)
    ensures
        key@.len() == KEY_LEN,
{
    SymmetricKey(os_random_bytes())
}

/// A fresh random 96-bit nonce.
pub fn random_nonce() -> (nonce: [u8; NONCE_LEN]) {
    os_random_bytes()
}

/// What `decrypt` gives back for a key, a ciphertext and a nonce.
pub open spec fn decrypt_result(key: Seq<u8>, ciphertext: Seq<u8>, nonce: Seq<u8>) -> Result<Seq<u8>, CryptoError> {
    match aes256gcm_open(key, nonce, ciphertext) {
        Some(plaintext) => Ok(plaintext),
        None => Err(CryptoError::Decrypt),
    }
}

/// Encrypt `plaintext` under `key` with the given nonce.
pub fn encrypt_with_nonce(key: &SymmetricKey, plaintext: &[u8], nonce: &[u8; NONCE_LEN]) -> (res: Result<Vec<u8>, CryptoError>)
    ensures
        res is Ok <==> plaintext@.len() <= AES_GCM_MAX_PLAINTEXT,
        res is Err ==> res == Err::<Vec<u8>, CryptoError>(CryptoError::Encrypt),
        res matches Ok(ct) ==> ct@ == aes256gcm_seal(key@, nonce@, plaintext@),
        res matches Ok(ct) ==> ct@.len() == plaintext@.len() + 16,
        res matches Ok(ct) ==> decrypt_result(key@, ct@, nonce@) == Ok::<Seq<u8>, CryptoError>(plaintext@),
{
    match aes256gcm_encrypt(key.as_bytes(), nonce, plaintext) {
        Ok(ct) => Ok(ct),
        Err(_) => Err(CryptoError::Encrypt),
    }
}

/// Encrypt `plaintext` with AES-256-GCM under a fresh random nonce, returning
/// `(ciphertext, nonce)`. Decrypting the result with the same key gives the
/// plaintext back.
pub fn encrypt(key: &SymmetricKey, plaintext: &[u8]) -> (res: Result<(Vec<u8>, [u8; NONCE_LEN]), CryptoError>)
    ensures
        res is Ok <==> plaintext@.len() <= AES_GCM_MAX_PLAINTEXT,
        res is Err ==> res == Err::<(Vec<u8>, [u8; NONCE_LEN]), CryptoError>(CryptoError::Encrypt),
        res matches Ok((ct, nonce)) ==> ct@ == aes256gcm_seal(key@, nonce@, plaintext@),
        res matches Ok((ct, nonce)) ==> ct@.len() == plaintext@.len() + 16,
        res matches Ok((ct, nonce)) ==> decrypt_result(key@, ct@, nonce@) == Ok::<Seq<u8>, CryptoError>(plaintext@),
{
    let nonce = random_nonce();
    match encrypt_with_nonce(key, plaintext, &nonce) {
        Ok(ct) => Ok((ct, nonce)),
        Err(e) => Err(e),
    }
}

/// Decrypt `ciphertext` with AES-256-GCM using the provided nonce.
pub fn decrypt(key: &SymmetricKey, ciphertext: &[u8], nonce: &[u8; NONCE_LEN]) -> (res: Result<Vec<u8>, CryptoError>)
    ensures
        match res {
            Ok(pt) => decrypt_result(key@, ciphertext@, nonce@) == Ok::<Seq<u8>, CryptoError>(pt@),
            Err(e) => decrypt_result(key@, ciphertext@, nonce@) == Err::<Seq<u8>, CryptoError>(e),
        },
        ciphertext@.len() < 16 ==> res is Err,
{
    match aes256gcm_decrypt(key.as_bytes(), nonce, ciphertext) {
        Ok(pt) => Ok(pt),
        Err(_) => Err(CryptoError::Decrypt),
    }
}

} // verus!
