use sealed_chat::cipher::{decrypt, encrypt, encrypt_with_nonce, random_symmetric_key, SymmetricKey};
use sealed_chat::identity::{IdentityKeyPair, PublicIdentity};
use sealed_chat::kdf::{derive_kek, random_salt};
use sealed_chat::session::{initiator_session, initiator_session_with, responder_session, responder_session_bytes};
use sealed_chat::CryptoError;

fn hex(s: &str) -> Vec<u8> {
    (0..s.len()).step_by(2).map(|i| u8::from_str_radix(&s[i..i + 2], 16).unwrap()).collect()
}

fn arr32(s: &str) -> [u8; 32] {
    hex(s).try_into().unwrap()
}

fn seq_bytes(from: u8) -> [u8; 32] {
    let mut out = [0u8; 32];
    for (i, b) in out.iter_mut().enumerate() {
        *b = from + i as u8;
    }
    out
}

#[test]
fn roundtrip() {
    let key = random_symmetric_key();
    let plaintext = b"hello sealed-chat";
    let (ct, nonce) = encrypt(&key, plaintext).unwrap();
    let pt = decrypt(&key, &ct, &nonce).unwrap();
    assert_eq!(pt, plaintext);
}

#[test]
fn wrong_key_fails() {
    let key = random_symmetric_key();
    let other = random_symmetric_key();
    let (ct, nonce) = encrypt(&key, b"secret").unwrap();
    assert!(decrypt(&other, &ct, &nonce).is_err());
}

#[test]
fn wire_roundtrip() {
    let kp = IdentityKeyPair::generate();
    let pubid = kp.public();
    let wire = pubid.to_wire();
    let parsed = PublicIdentity::from_wire(&wire).unwrap();
    assert_eq!(pubid, parsed);
}

#[test]
fn sign_verify() {
    let kp = IdentityKeyPair::generate();
    let pubid = kp.public();
    let msg = b"session setup";
    let sig = kp.sign(msg);
    assert!(pubid.verify(msg, &sig).is_ok());
    assert!(pubid.verify(b"other", &sig).is_err());
}

#[test]
fn deterministic() {
    let salt = random_salt();
    let (a, _) = derive_kek("correct horse", &salt).unwrap();
    let (b, _) = derive_kek("correct horse", &salt).unwrap();
    assert_eq!(a, b);
}

#[test]
fn different_password_differs() {
    let salt = random_salt();
    let (a, _) = derive_kek("password1", &salt).unwrap();
    let (b, _) = derive_kek("password2", &salt).unwrap();
    assert_ne!(a, b);
}

#[test]
fn both_sides_agree() {
    let a = IdentityKeyPair::generate();
    let b = IdentityKeyPair::generate();
    let a_pub = a.public();
    let b_pub = b.public();

    let setup = initiator_session(&a.identity_secret, &b_pub.identity_pub);
    let b_key = responder_session(&b.identity_secret, &a_pub.identity_pub, &setup.ephemeral_pub);

    assert_eq!(setup.session_key.as_bytes(), b_key.as_bytes());
}

#[test]
fn encrypted_message_flows_between_parties() {
    let a = IdentityKeyPair::generate();
    let b = IdentityKeyPair::generate();
    let a_pub = a.public();
    let b_pub = b.public();

    let setup = initiator_session(&a.identity_secret, &b_pub.identity_pub);
    let b_key = responder_session(&b.identity_secret, &a_pub.identity_pub, &setup.ephemeral_pub);

    let (ct, nonce) = encrypt(&setup.session_key, b"hi").unwrap();
    let pt = decrypt(&b_key, &ct, &nonce).unwrap();
    assert_eq!(pt, b"hi");
}

#[test]
fn aes_gcm_ciphertext_is_the_standard_one() {
    let key = SymmetricKey::from_bytes(seq_bytes(0));
    let nonce: [u8; 12] = [0, 1, 2, 3, 4, 5, 6, 7, 8, 9, 10, 11];
    let ct = encrypt_with_nonce(&key, b"hello sealed-chat", &nonce).unwrap();
    assert_eq!(ct, hex("2f67ba77aac5b17eec2df2ef9c8a100cf7382ceedf4dfaa3a78b7c59c103903141"));
    assert_eq!(ct.len(), b"hello sealed-chat".len() + 16);
    assert_eq!(decrypt(&key, &ct, &nonce).unwrap(), b"hello sealed-chat");
}

#[test]
fn short_or_tampered_ciphertext_fails_with_decrypt_error() {
    let key = SymmetricKey::from_bytes(seq_bytes(0));
    let nonce = [0u8; 12];
    assert_eq!(decrypt(&key, &[1, 2, 3], &nonce), Err(CryptoError::Decrypt));
    let mut ct = encrypt_with_nonce(&key, b"data", &nonce).unwrap();
    ct[0] ^= 1;
    assert_eq!(decrypt(&key, &ct, &nonce), Err(CryptoError::Decrypt));
}

#[test]
fn x25519_public_key_matches_reference_value() {
    let kp = IdentityKeyPair { identity_secret: seq_bytes(1), signing_key: arr32("9d61b19deffd5a60ba844af492ec2cc44449c5697b326919703bac031cae7f60") };
    let p = kp.public();
    assert_eq!(p.identity_pub.to_vec(), hex("07a37cbc142093c8b755dc1b10e86cb426374ad16aa853ed0bdfc0b2b86d1c7c"));
    assert_eq!(p.signing_pub.to_vec(), hex("d75a980182b10ab7d54bfed3c964073a0ee172f3daa62325af021a68f707511a"));
    assert_eq!(p.to_wire(), "B6N8vBQgk8i3VdwbEOhstCY3StFqqFPtC9/AsrhtHHw=.11qYAYKxCrfVS/7TyWQHOg7hcvPapiMlrwIaaPcHURo=");
}

#[test]
fn ed25519_signature_matches_reference_value() {
    let kp = IdentityKeyPair { identity_secret: seq_bytes(1), signing_key: arr32("9d61b19deffd5a60ba844af492ec2cc44449c5697b326919703bac031cae7f60") };
    let sig = kp.sign(b"session setup");
    assert_eq!(sig, hex("9d79aa5bb10b88cae42132f8f45f606f844a0355d057cb16629e46227ec9428ee394fd10869d4b443d92bba582ef74d1dfb16af21a36f6b21528526d25b42007"));
}

#[test]
fn verify_refuses_signature_of_wrong_length() {
    let kp = IdentityKeyPair::generate();
    let pubid = kp.public();
    assert_eq!(pubid.verify(b"m", &[0u8; 63]), Err(CryptoError::InvalidEncoding("signature error".to_string())));
    let mut sig = kp.sign(b"m");
    sig[10] ^= 0x40;
    assert_eq!(pubid.verify(b"m", &sig), Err(CryptoError::InvalidEncoding("bad signature".to_string())));
}

#[test]
fn session_key_matches_reference_value() {
    let setup = initiator_session_with(&seq_bytes(1), &arr32("5869aff450549732cbaaed5e5df9b30a6da31cb0e5742bad5ad4a1a768f1a67b"), &seq_bytes(65));
    assert_eq!(setup.ephemeral_pub.to_vec(), hex("64b101b1d0be5a8704bd078f9895001fc03e8e9f9522f188dd128d9846d48466"));
    assert_eq!(setup.session_key.as_bytes().to_vec(), hex("20f13796e985a1ddd6a4080ff05172b4f31d2fd031cfb27b5a4f5e386f27e70c"));
    let b_key = responder_session_bytes(&seq_bytes(33), &arr32("07a37cbc142093c8b755dc1b10e86cb426374ad16aa853ed0bdfc0b2b86d1c7c"), &setup.ephemeral_pub);
    assert_eq!(b_key.as_bytes(), setup.session_key.as_bytes());
}

#[test]
fn kek_matches_reference_value() {
    let salt: Vec<u8> = (0u8..16).collect();
    let (kek, salt_back) = derive_kek("correct horse", &salt).unwrap();
    assert_eq!(kek.to_vec(), hex("e3c889ca40ed01e6b6771fc8a5bf16e35ad60b41c9bd5d7e6d63adf51e50b0fd"));
    assert_eq!(salt_back.to_vec(), salt);
}

#[test]
fn kek_refuses_salt_of_wrong_length() {
    assert_eq!(derive_kek("pw", &[0u8; 15]), Err(CryptoError::InvalidEncoding("salt must be 16 bytes".to_string())));
}

#[test]
fn private_bytes_roundtrip() {
    let kp = IdentityKeyPair::generate();
    let bytes = kp.to_private_bytes();
    assert_eq!(&bytes[..32], &kp.identity_secret);
    assert_eq!(&bytes[32..], &kp.signing_key);
    let back = IdentityKeyPair::from_private_bytes(&bytes).unwrap();
    assert_eq!(back.identity_secret, kp.identity_secret);
    assert_eq!(back.signing_key, kp.signing_key);
}

#[test]
fn from_wire_reports_each_refusal() {
    let msg = |r: Result<PublicIdentity, CryptoError>| match r {
        Err(CryptoError::InvalidEncoding(m)) => m,
        other => panic!("unexpected {:?}", other),
    };
    assert_eq!(msg(PublicIdentity::from_wire("no-separator")), "expected two .-separated keys");
    assert_eq!(msg(PublicIdentity::from_wire("AAAA.AAAAAAAAAAAAAAAAAAAAAAAAAAAAAAAAAAAAAAAAAAA=")), "identity key must be 32 bytes");
    assert_eq!(msg(PublicIdentity::from_wire("AAAAAAAAAAAAAAAAAAAAAAAAAAAAAAAAAAAAAAAAAAA=.AAAA")), "signing key must be 32 bytes");
    assert!(matches!(PublicIdentity::from_wire("***.AAAA"), Err(CryptoError::InvalidEncoding(_))));
    let good = "B6N8vBQgk8i3VdwbEOhstCY3StFqqFPtC9/AsrhtHHw=.11qYAYKxCrfVS/7TyWQHOg7hcvPapiMlrwIaaPcHURo=";
    let extra = format!("{good}.ignored");
    assert_eq!(PublicIdentity::from_wire(&extra).unwrap(), PublicIdentity::from_wire(good).unwrap());
}

#[test]
fn crypto_error_messages() {
    assert_eq!(CryptoError::Encrypt.message(), "encryption failed");
    assert_eq!(CryptoError::Decrypt.message(), "decryption failed (wrong key or corrupted data)");
    assert_eq!(CryptoError::InvalidKeyLength(7).message(), "invalid key length: 7");
    assert_eq!(CryptoError::InvalidEncoding("x".to_string()).message(), "invalid encoding: x");
    assert_eq!(CryptoError::Argon2.message(), "argon2 error");
}

#[test]
fn from_wire_refuses_a_signing_key_off_the_curve() {
    let wire = "AAAAAAAAAAAAAAAAAAAAAAAAAAAAAAAAAAAAAAAAAAA=.AgAAAAAAAAAAAAAAAAAAAAAAAAAAAAAAAAAAAAAAAAA=";
    match PublicIdentity::from_wire(wire) {
        Err(CryptoError::InvalidEncoding(m)) => assert!(m.contains("decompress")),
        other => panic!("unexpected {:?}", other),
    }
}

#[test]
fn zeroize_wipes_both_secret_keys() {
    let mut kp = IdentityKeyPair::generate();
    kp.zeroize();
    assert_eq!(kp.identity_secret, [0u8; 32]);
    assert_eq!(kp.signing_key, [0u8; 32]);
}

#[test]
fn key_bytes_are_its_slice() {
    let key = SymmetricKey::from_bytes(seq_bytes(5));
    let bytes: &[u8] = key.as_ref();
    assert_eq!(bytes, &seq_bytes(5)[..]);
}
