use aes_gcm::aead::{Aead, KeyInit, Payload};
use aes_gcm::{Aes256Gcm, Key, Nonce};
use paramant::crypto::aead::{decrypt, decrypt_checked, encrypt, nonce_ok};
use paramant::crypto::ecdh::EcdhKeyPair;
use paramant::crypto::kdf::{derive_chain_key, derive_master, derive_message_key};
use paramant::crypto::kem::{encapsulate, KemKeyPair};
use paramant::error::ParamantError;

#[test]
fn test_kem_roundtrip() {
    let alice = KemKeyPair::generate().unwrap();
    let (ct, bob_secret) = encapsulate(alice.public_key()).unwrap();
    let alice_secret = alice.decapsulate(&ct).unwrap();
    assert_eq!(alice_secret.0, bob_secret.0);
    assert_eq!(alice_secret.0.len(), 32);
}

#[test]
fn kem_rejects_wrong_lengths() {
    let alice = KemKeyPair::generate().unwrap();
    assert!(matches!(encapsulate(&[0u8; 10]), Err(ParamantError::InvalidKey(_))));
    assert!(matches!(alice.decapsulate(&[0u8; 10]), Err(ParamantError::Kem(_))));
    let (ct, ss) = encapsulate(alice.public_key()).unwrap();
    assert_eq!(ct.len(), 1088);
    assert_ne!(&ct[..32], &ss.0[..]);
}

#[test]
fn ecdh_both_sides_agree() {
    let a = EcdhKeyPair::generate().unwrap();
    let b = EcdhKeyPair::generate().unwrap();
    assert_eq!(a.public_key().len(), 65);
    assert_eq!(a.public_key()[0], 0x04);
    let ab = a.diffie_hellman(b.public_key()).unwrap();
    let ba = b.diffie_hellman(a.public_key()).unwrap();
    assert_eq!(ab.0, ba.0);
    assert_eq!(ab.0.len(), 32);
    assert!(matches!(a.diffie_hellman(&[4u8; 65]), Err(ParamantError::InvalidKey(_))));
}

#[test]
fn chat_message_roundtrip_and_binding() {
    let key = [8u8; 32];
    let m = encrypt(&key, b"hoi", 7, "msg").unwrap();
    assert_eq!(m.seq, 7);
    assert_eq!(m.nonce.len(), 24);
    assert_eq!(m.ciphertext.len(), 2 * (3 + 16));
    assert_eq!(decrypt(&key, &m, "msg").unwrap(), b"hoi");
    assert!(matches!(decrypt(&key, &m, "file"), Err(ParamantError::DecryptionFailed)));
    let mut other_seq = m.clone();
    other_seq.seq = 8;
    assert!(matches!(decrypt(&key, &other_seq, "msg"), Err(ParamantError::DecryptionFailed)));
    let mut bad_hex = m.clone();
    bad_hex.ciphertext = "xyz".into();
    assert!(matches!(decrypt(&key, &bad_hex, "msg"), Err(ParamantError::DecryptionFailed)));
    assert!(matches!(decrypt(&[9u8; 32], &m, "msg"), Err(ParamantError::DecryptionFailed)));
}

#[test]
fn key_schedule_is_deterministic_and_separated() {
    let m1 = derive_master(&[1u8; 32], &[2u8; 32]);
    let m2 = derive_master(&[1u8; 32], &[2u8; 32]);
    assert_eq!(m1.0, m2.0);
    assert_ne!(m1.0, derive_master(&[2u8; 32], &[1u8; 32]).0);
    let a = derive_chain_key(&m1, b"chain-A-v2");
    let b = derive_chain_key(&m1, b"chain-B-v2");
    assert_ne!(a, b);
    let (msg_key, next) = derive_message_key(&a);
    assert_ne!(msg_key, next);
    assert_ne!(next, a);
}

#[test]
fn message_aad_is_prefix_sequence_and_type() {
    let key = [0x21u8; 32];
    let m = encrypt(&key, b"payload", 1234567890123, "file").unwrap();
    let nonce = hex::decode(&m.nonce).unwrap();
    let cipher = Aes256Gcm::new(Key::<Aes256Gcm>::from_slice(&key));
    let expected = cipher
        .encrypt(Nonce::from_slice(&nonce), Payload { msg: b"payload", aad: b"paramant:1234567890123:file" })
        .unwrap();
    assert_eq!(m.ciphertext, hex::encode(expected));
    let zero = encrypt(&key, b"", 0, "msg").unwrap();
    let nonce0 = hex::decode(&zero.nonce).unwrap();
    let expected0 = cipher
        .encrypt(Nonce::from_slice(&nonce0), Payload { msg: b"", aad: b"paramant:0:msg" })
        .unwrap();
    assert_eq!(zero.ciphertext, hex::encode(expected0));
}

#[test]
fn checked_decrypt_refuses_a_wrong_size_nonce() {
    let key = [3u8; 32];
    let m = encrypt(&key, b"x", 1, "msg").unwrap();
    assert!(nonce_ok(&m));
    assert_eq!(decrypt_checked(&key, &m, "msg").unwrap(), b"x");
    let mut short = m.clone();
    short.nonce = "0011".into();
    assert!(!nonce_ok(&short));
    assert!(matches!(decrypt_checked(&key, &short, "msg"), Err(ParamantError::DecryptionFailed)));
    let mut not_hex = m.clone();
    not_hex.nonce = "zz".into();
    assert!(nonce_ok(&not_hex));
    assert!(matches!(decrypt_checked(&key, &not_hex, "msg"), Err(ParamantError::DecryptionFailed)));
}
