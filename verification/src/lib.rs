//! Verified core of an end-to-end encrypted chat: the cryptographic
//! primitives and their laws, the wire formats, and the rules that the relay
//! server and the desktop client apply to what they are handed.
use vstd::prelude::*;

pub mod auth;
pub mod bytes;
pub mod cipher;
pub mod desktop;
pub mod error;
pub mod identity;
pub mod invites;
pub mod kdf;
pub mod message;
pub mod primitives;
pub mod protocol;
pub mod rate_limit;
pub mod routes;
pub mod schema;
pub mod session;
pub mod state;
pub mod text;
pub mod ws;

pub use cipher::{decrypt, encrypt, random_nonce, random_symmetric_key, SymmetricKey};
pub use identity::{IdentityKeyPair, PublicIdentity};
pub use kdf::derive_kek;
pub use session::{derive_session_key, SessionSetup};

verus! {

/// Length in bytes of an AES-256-GCM key.
pub const KEY_LEN: usize = 32;

/// Length in bytes of an AES-GCM nonce.
pub const NONCE_LEN: usize = 12;

/// What the cryptographic operations refuse.
#[derive(Debug, Clone, PartialEq, Eq)]
pub enum CryptoError {
    Encrypt,
    Decrypt,
    InvalidKeyLength(usize),
    InvalidEncoding(String),
    Argon2,
}

/// Whether a result is the `InvalidEncoding` error with the given text.
pub open spec fn fails_with_encoding<T>(res: Result<T, CryptoError>, text: Seq<char>) -> bool {
    match res {
        Err(CryptoError::InvalidEncoding(m)) => m@ == text,
        _ => false,
    }
}

impl CryptoError {
    /// The human-readable text of the error.
    pub fn message(&self) -> (text: String)
        ensures
            self is Encrypt ==> text@ == "encryption failed"@,
            self is Decrypt ==> text@ == "decryption failed (wrong key or corrupted data)"@,
            self is Argon2 ==> text@ == "argon2 error"@,
            self matches CryptoError::InvalidEncoding(m) ==> text@ == "invalid encoding: "@ + m@,
            self matches CryptoError::InvalidKeyLength(_) ==> "invalid key length: "@.is_prefix_of(text@),
    {
        match self {
            CryptoError::Encrypt => String::from_str("encryption failed"),
            CryptoError::Decrypt => String::from_str("decryption failed (wrong key or corrupted data)"),
            CryptoError::Argon2 => String::from_str("argon2 error"),
            CryptoError::InvalidEncoding(m) => String::from_str("invalid encoding: ").concat(m.as_str()),
            CryptoError::InvalidKeyLength(n) => {
                let digits = n.to_string();
                String::from_str("invalid key length: ").concat(digits.as_str())
            },
        }
    }
}

} // verus!
