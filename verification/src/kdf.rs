//! Key derivation: password -> key-encryption-key (KEK) via Argon2id.
use vstd::prelude::*;

use crate::bytes::array_from_slice;
use crate::primitives::{argon2id, argon2id_hash, os_random_bytes};
use crate::{fails_with_encoding, CryptoError, KEY_LEN};

verus! {

/// Length in bytes of a KEK salt.
pub const SALT_LEN: usize = 16;

/// Argon2id memory cost in KiB.
pub const KEK_MEMORY_COST: u32 = 65536;

/// Argon2id number of passes.
pub const KEK_TIME_COST: u32 = 3;

/// Argon2id degree of parallelism.
pub const KEK_PARALLELISM: u32 = 1;

/// The KEK of a password (as its UTF-8 bytes) and a 16-byte salt.
pub open spec fn kek_of(password: Seq<char>, salt: Seq<u8>) -> Seq<u8> {
    argon2id(vstd::utf8::encode_utf8(password), salt, KEK_MEMORY_COST, KEK_TIME_COST, KEK_PARALLELISM)
}

/// Derive a 256-bit KEK from a password using Argon2id.
///
/// The returned salt must be stored alongside any data encrypted with the KEK,
/// so the same KEK can be re-derived at login: the key depends on the password
/// and the salt alone.
pub fn derive_kek(password: &str, salt: &[u8]) -> (res: Result<([u8; KEY_LEN], [u8; SALT_LEN]), CryptoError>)
    ensures
        salt@.len() != SALT_LEN ==> fails_with_encoding(res, "salt must be 16 bytes"@),
        salt@.len() == SALT_LEN && vstd::utf8::encode_utf8(password@).len() > u32::MAX ==> res
            == Err::<([u8; KEY_LEN], [u8; SALT_LEN]), CryptoError>(CryptoError::Argon2),
        salt@.len() == SALT_LEN && vstd::utf8::encode_utf8(password@).len() <= u32::MAX ==> (res matches Ok(
            (key, salt_arr),
        ) && key@ == kek_of(password@, salt@) && salt_arr@ == salt@),
{
    if salt.len() != SALT_LEN {
        return Err(CryptoError::InvalidEncoding(String::from_str("salt must be 16 bytes")));
    }
    let salt_arr: [u8; SALT_LEN] = array_from_slice(salt);
    match argon2id_hash(password.as_bytes(), &salt_arr, KEK_MEMORY_COST, KEK_TIME_COST, KEK_PARALLELISM) {
        Ok(key) => Ok((key, salt_arr)),
        Err(_) => Err(CryptoError::Argon2),
    }
}

/// A fresh random salt for [`derive_kek`].
pub fn random_salt() -> (salt: [u8; SALT_LEN]) {
    os_random_bytes()
}

} // verus!
