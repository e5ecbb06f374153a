use sealed_chat::desktop::{
    complete_session, decrypt_attachment, decrypt_message, encrypt_attachment, encrypt_message, generate_identity,
    initiate_session, load_keypair, local_master_key, parse_key, parse_keypair,
};
use sealed_chat::identity::PublicIdentity;
use sealed_chat::message::{Block, MessageContent};

const KEY_B64: &str = "AAECAwQFBgcICQoLDA0ODxAREhMUFRYXGBkaGxwdHh8=";

#[test]
fn message_roundtrip_through_base64() {
    let payload = encrypt_message(KEY_B64, "{\"blocks\":[]} 你好").unwrap();
    let back = decrypt_message(KEY_B64, &payload.ciphertext, &payload.nonce).unwrap();
    assert_eq!(back, "{\"blocks\":[]} 你好");
}

#[test]
fn message_decryption_refusals() {
    let payload = encrypt_message(KEY_B64, "hi").unwrap();
    let other = "HwECAwQFBgcICQoLDA0ODxAREhMUFRYXGBkaGxwdHh8=";
    assert_eq!(decrypt_message(other, &payload.ciphertext, &payload.nonce).unwrap_err(), "decryption failed (wrong key or corrupted data)");
    assert_eq!(decrypt_message(KEY_B64, &payload.ciphertext, "AAAA").unwrap_err(), "invalid nonce");
    assert_eq!(parse_key("AAAA").err().unwrap(), "invalid key length");
    assert!(parse_key("***").is_err());
    assert_eq!(parse_key(KEY_B64).unwrap().as_bytes()[31], 31);
}

#[test]
fn attachment_roundtrip() {
    let data: Vec<u8> = (0..=255u8).collect();
    let payload = encrypt_attachment(data.clone()).unwrap();
    assert_ne!(payload.ciphertext, payload.key);
    let back = decrypt_attachment(&payload.ciphertext, &payload.key, &payload.nonce).unwrap();
    assert_eq!(back, data);
}

#[test]
fn generated_identity_reads_back() {
    let (public_wire, private_wire) = generate_identity();
    let kp = parse_keypair(&private_wire).unwrap();
    assert_eq!(kp.public().to_wire(), public_wire);
    assert!(PublicIdentity::from_wire(&public_wire).is_ok());
    assert_eq!(parse_keypair("AAAA").err().unwrap(), "invalid private key length");
    assert_eq!(load_keypair(None).err().unwrap(), "no identity found");
}

#[test]
fn desktop_sessions_agree() {
    let (a_public, a_private) = generate_identity();
    let (b_public, b_private) = generate_identity();
    let init = initiate_session(Some(&a_private), &b_public).unwrap();
    let key = complete_session(Some(&b_private), &a_public, &init.ephemeral_pub).unwrap();
    assert_eq!(key, init.session_key);
    let sealed = encrypt_message(&init.session_key, "hello").unwrap();
    assert_eq!(decrypt_message(&key, &sealed.ciphertext, &sealed.nonce).unwrap(), "hello");
    assert_eq!(complete_session(Some(&b_private), &a_public, "AAAA").unwrap_err(), "invalid ephemeral key");
    assert!(initiate_session(None, &b_public).is_err());
}

#[test]
fn local_master_key_is_kept_or_created() {
    let (kept, store) = local_master_key(Some("existing".to_string()));
    assert_eq!((kept.as_str(), store), ("existing", false));
    let (fresh, store) = local_master_key(None);
    assert!(store);
    assert!(parse_key(&fresh).is_ok());
}

#[test]
fn text_message_has_one_block() {
    let m = MessageContent::text("hello".to_string());
    assert_eq!(m.blocks, vec![Block::Text { text: "hello".to_string() }]);
    assert!(MessageContent::default().blocks.is_empty());
}
