//! Identity keys: X25519 for key agreement, Ed25519 for signing, and the wire
//! format of the public half.
use vstd::prelude::*;

use crate::bytes::{array_from_slice, concat_to_array, slice_to_array};
use crate::primitives::{
    base64_decode, base64_decode_text, base64_encode, base64_encode_bytes, ed25519_check_public,
    ed25519_point_valid, ed25519_public, ed25519_public_key, ed25519_sign, ed25519_signature,
    ed25519_verifies, ed25519_verify, is_base64_char, os_random_bytes, x25519_public,
    x25519_public_key, zeroize_bytes,
};
use crate::text::{chars_of, index_of_from, lemma_split_first_at, lemma_split_first_none, split_first};
use crate::{fails_with_encoding, CryptoError};

verus! {

/// An identity key pair generated once per device at registration: the
/// X25519 secret (for session agreement) and the Ed25519 secret key (for
/// signing), 32 bytes each.
pub struct IdentityKeyPair {
    pub identity_secret: [u8; 32],
    pub signing_key: [u8; 32],
}

/// Public half of an identity, safe to upload to the server.
#[derive(Debug, Clone, Copy, PartialEq, Eq)]
pub struct PublicIdentity {
    pub identity_pub: [u8; 32],
    pub signing_pub: [u8; 32],
}

impl PublicIdentity {
    /// The signing key is the encoding of a curve point, as every
    /// `ed25519_dalek::VerifyingKey` is.
    pub open spec fn wf(&self) -> bool {
        ed25519_point_valid(self.signing_pub@)
    }
}

/// The wire format of a public identity: both keys in base64, joined by `.`.
pub open spec fn wire_text(identity_pub: Seq<u8>, signing_pub: Seq<u8>) -> Seq<char> {
    base64_encode(identity_pub) + seq!['.'] + base64_encode(signing_pub)
}

/// The first two `.`-separated fields of a text, when it has a `.` at all.
pub open spec fn wire_fields(s: Seq<char>) -> Option<(Seq<char>, Seq<char>)> {
    match split_first(s, '.').1 {
        None => None,
        Some(rest) => Some((split_first(s, '.').0, split_first(rest, '.').0)),
    }
}

/// The two public keys that a wire text encodes, when `from_wire` accepts it.
pub open spec fn wire_keys(s: Seq<char>) -> Option<(Seq<u8>, Seq<u8>)> {
    match wire_fields(s) {
        None => None,
        Some((id_text, sig_text)) => match (base64_decode(id_text), base64_decode(sig_text)) {
            (Some(id), Some(sig)) => if id.len() == 32 && sig.len() == 32 && ed25519_point_valid(sig) {
                Some((id, sig))
            } else {
                None
            },
            _ => None,
        },
    }
}

/// The 64 private bytes of a key pair: the X25519 secret, then the Ed25519 one.
pub open spec fn private_bytes(identity_secret: Seq<u8>, signing_key: Seq<u8>) -> Seq<u8> {
    identity_secret + signing_key
}

/// The key pair held in 64 private bytes.
pub open spec fn keypair_of_private_bytes(bytes: Seq<u8>) -> (Seq<u8>, Seq<u8>) {
    (bytes.subrange(0, 32), bytes.subrange(32, 64))
}

/// Reading back the private bytes of a key pair gives the same key pair.
pub proof fn lemma_private_bytes_roundtrip(identity_secret: Seq<u8>, signing_key: Seq<u8>)
    requires
        identity_secret.len() == 32,
        signing_key.len() == 32,
    ensures
        keypair_of_private_bytes(private_bytes(identity_secret, signing_key)) == (identity_secret, signing_key),
{
    assert(private_bytes(identity_secret, signing_key).subrange(0, 32) =~= identity_secret);
    assert(private_bytes(identity_secret, signing_key).subrange(32, 64) =~= signing_key);
}

/// The fields of a wire text that was built from two base64 texts.
proof fn lemma_wire_fields_of_text(a: Seq<char>, b: Seq<char>)
    requires
        forall|i: int| 0 <= i < a.len() ==> a[i] != '.',
        forall|i: int| 0 <= i < b.len() ==> b[i] != '.',
    ensures
        wire_fields(a + seq!['.'] + b) == Some((a, b)),
{
    let s = a + seq!['.'] + b;
    assert forall|j: int| 0 <= j < a.len() implies s[j] != '.' by {
        assert(s[j] == a[j]);
    }
    lemma_split_first_at(s, '.', a.len() as int);
    assert(s.subrange(0, a.len() as int) =~= a);
    assert(s.subrange(a.len() + 1int, s.len() as int) =~= b);
    lemma_split_first_none(b, '.');
}

impl IdentityKeyPair {
    /// A fresh random key pair.
    pub fn generate() -> (kp: Self) {
        IdentityKeyPair { identity_secret: os_random_bytes(), signing_key: os_random_bytes() }
    }

    /// The public half of the key pair.
    pub fn public(&self) -> (p: PublicIdentity)
        ensures
            p.identity_pub@ == x25519_public(self.identity_secret@),
            p.signing_pub@ == ed25519_public(self.signing_key@),
            p.wf(),
    {
        PublicIdentity {
            identity_pub: x25519_public_key(&self.identity_secret),
            signing_pub: ed25519_public_key(&self.signing_key),
        }
    }

    /// Sign an arbitrary message with the Ed25519 signing key. The signature
    /// verifies against the key pair's public half.
    pub fn sign(&self, message: &[u8]) -> (signature: Vec<u8>)
        ensures
            signature@ == ed25519_signature(self.signing_key@, message@),
            signature@.len() == 64,
            ed25519_verifies(ed25519_public(self.signing_key@), message@, signature@),
    {
        let sig = ed25519_sign(&self.signing_key, message);
        let mut out: Vec<u8> = Vec::new();
        let mut i: usize = 0;
        while i < 64
            invariant
                i <= 64,
                out@ == sig@.subrange(0, i as int),
            decreases 64 - i,
        {
            out.push(sig[i]);
            i = i + 1;
        }
        assert(out@ =~= sig@);
        out
    }

    /// Serialize the private half to 64 bytes (X25519 32B || Ed25519 32B).
    pub fn to_private_bytes(&self) -> (bytes: [u8; 64])
        ensures
            bytes@ == private_bytes(self.identity_secret@, self.signing_key@),
    {
        concat_to_array(self.identity_secret.as_slice(), self.signing_key.as_slice())
    }

    /// Reconstruct a key pair from [`IdentityKeyPair::to_private_bytes`].
    pub fn from_private_bytes(bytes: &[u8; 64]) -> (res: Result<Self, CryptoError>)
        ensures
            res matches Ok(kp) && (kp.identity_secret@, kp.signing_key@) == keypair_of_private_bytes(bytes@),
    {
        let identity_secret: [u8; 32] = slice_to_array(bytes.as_slice(), 0);
        let signing_key: [u8; 32] = slice_to_array(bytes.as_slice(), 32);
        Ok(IdentityKeyPair { identity_secret, signing_key })
    }

    /// Wipe both secret keys: every byte becomes zero (by writes that the
    /// compiler keeps). A key pair should be wiped before it is dropped.
    pub fn zeroize(&mut self)
        ensures
            final(self).identity_secret@ == Seq::new(32, |i: int| 0u8),
            final(self).signing_key@ == Seq::new(32, |i: int| 0u8),
    {
        zeroize_bytes(&mut self.identity_secret);
        zeroize_bytes(&mut self.signing_key);
    }
}

impl PublicIdentity {
    /// Encode both public keys to base64, joined by a `.`: the wire format.
    /// Parsing the result gives the same identity back.
    pub fn to_wire(&self) -> (wire: String)
        ensures
            wire@ == wire_text(self.identity_pub@, self.signing_pub@),
            self.wf() ==> wire_keys(wire@) == Some((self.identity_pub@, self.signing_pub@)),
    {
        let id_text = base64_encode_bytes(self.identity_pub.as_slice());
        let sig_text = base64_encode_bytes(self.signing_pub.as_slice());
        proof {
            assert forall|i: int| 0 <= i < id_text@.len() implies id_text@[i] != '.' by {
                assert(is_base64_char(id_text@[i]));
            }
            assert forall|i: int| 0 <= i < sig_text@.len() implies sig_text@[i] != '.' by {
                assert(is_base64_char(sig_text@[i]));
            }
            lemma_wire_fields_of_text(id_text@, sig_text@);
            reveal_strlit(".");
        }
        let wire = id_text.concat(".").concat(sig_text.as_str());
        assert(wire@ =~= wire_text(self.identity_pub@, self.signing_pub@));
        wire
    }

    /// Parse the wire format produced by [`PublicIdentity::to_wire`]. Only the
    /// first two `.`-separated fields are read.
    pub fn from_wire(s: &str) -> (res: Result<Self, CryptoError>)
        ensures
            res is Ok <==> wire_keys(s@) is Some,
            res matches Ok(p) ==> Some((p.identity_pub@, p.signing_pub@)) == wire_keys(s@) && p.wf(),
            res matches Err(e) ==> e is InvalidEncoding,
            wire_fields(s@) is None ==> fails_with_encoding(res, "expected two .-separated keys"@),
            wire_fields(s@) matches Some((a, b)) && base64_decode(a) matches Some(id) && base64_decode(
                b,
            ) is Some && id.len() != 32 ==> fails_with_encoding(res, "identity key must be 32 bytes"@),
            wire_fields(s@) matches Some((a, b)) && base64_decode(a) matches Some(id) && base64_decode(
                b,
            ) matches Some(sig) && id.len() == 32 && sig.len() != 32 ==> fails_with_encoding(res, "signing key must be 32 bytes"@),
    {
        let chars = chars_of(s);
        let first = index_of_from(&chars, 0, '.');
        if first == chars.len() {
            proof {
                lemma_split_first_none(s@, '.');
            }
            return Err(CryptoError::InvalidEncoding(String::from_str("expected two .-separated keys")));
        }
        let second = index_of_from(&chars, first + 1, '.');
        let ghost rest = s@.subrange(first + 1, s@.len() as int);
        proof {
            lemma_split_first_at(s@, '.', first as int);
            if second < chars.len() {
                lemma_split_first_at(rest, '.', second - first - 1);
                assert(rest.subrange(0, second - first - 1) =~= s@.subrange(first + 1, second as int));
            } else {
                lemma_split_first_none(rest, '.');
            }
        }
        let id_text = s.substring_char(0, first);
        let sig_text = s.substring_char(first + 1, second);
        assert(wire_fields(s@) == Some((id_text@, sig_text@)));
        let id_bytes = match base64_decode_text(id_text) {
            Ok(bytes) => bytes,
            Err(e) => return Err(CryptoError::InvalidEncoding(e.to_string())),
        };
        let sig_bytes = match base64_decode_text(sig_text) {
            Ok(bytes) => bytes,
            Err(e) => return Err(CryptoError::InvalidEncoding(e.to_string())),
        };
        if id_bytes.len() != 32 {
            return Err(CryptoError::InvalidEncoding(String::from_str("identity key must be 32 bytes")));
        }
        if sig_bytes.len() != 32 {
            return Err(CryptoError::InvalidEncoding(String::from_str("signing key must be 32 bytes")));
        }
        let identity_pub: [u8; 32] = array_from_slice(id_bytes.as_slice());
        let signing_pub: [u8; 32] = array_from_slice(sig_bytes.as_slice());
        match ed25519_check_public(&signing_pub) {
            Ok(()) => Ok(PublicIdentity { identity_pub, signing_pub }),
            Err(e) => Err(CryptoError::InvalidEncoding(e.to_string())),
        }
    }

    /// Verify an Ed25519 signature over `message`: signatures that are not 64
    /// bytes long are refused before any verification.
    pub fn verify(&self, message: &[u8], signature: &[u8]) -> (res: Result<(), CryptoError>)
        requires
            self.wf(),
        ensures
            res is Ok <==> signature@.len() == 64 && ed25519_verifies(self.signing_pub@, message@, signature@),
            signature@.len() != 64 ==> fails_with_encoding(res, "signature error"@),
            signature@.len() == 64 && res is Err ==> fails_with_encoding(res, "bad signature"@),
    {
        if signature.len() != 64 {
            return Err(CryptoError::InvalidEncoding(String::from_str("signature error")));
        }
        let sig: [u8; 64] = array_from_slice(signature);
        if ed25519_verify(&self.signing_pub, message, &sig) {
            Ok(())
        } else {
            Err(CryptoError::InvalidEncoding(String::from_str("bad signature")))
        }
    }
}

} // verus!
