use paramant::{aead, kdf};
use subtle::ConstantTimeEq;

#[test]
fn aead_decrypt_rejects_tamper_at_every_position() {
    let key = [5u8; aead::KEY_LEN];
    let nonce = [6u8; aead::NONCE_LEN];
    let ct = aead::encrypt(&key, &nonce, b"aad", b"a longer plaintext payload").unwrap();
    for i in 0..ct.len() {
        let mut bad = ct.clone();
        bad[i] ^= 0x01;
        assert!(aead::decrypt(&key, &nonce, b"aad", &bad).is_err(), "tamper at byte {i} was accepted");
    }
    assert_eq!(aead::decrypt(&key, &nonce, b"aad", &ct).unwrap(), b"a longer plaintext payload");
}

#[test]
fn verify_password_fails_closed() {
    let salt = b"sixteen-byte-salt";
    let tag = kdf::argon2id::hash_password(b"correct horse battery", salt).unwrap();
    assert!(kdf::argon2id::verify_password(b"correct horse battery", salt, &tag));
    for byte in [0usize, 16, 31] {
        let mut bad = tag;
        bad[byte] ^= 0x01;
        assert!(
            !kdf::argon2id::verify_password(b"correct horse battery", salt, &bad),
            "verify accepted a tag tampered at byte {byte}"
        );
    }
    assert!(!kdf::argon2id::verify_password(b"wrong password", salt, &tag));
}

#[test]
fn ct_eq_rejects_every_single_bit_flip() {
    let reference = [0xABu8; 32];
    assert!(bool::from(reference.ct_eq(&reference)));
    for byte in 0..32 {
        for bit in 0..8 {
            let mut other = reference;
            other[byte] ^= 1 << bit;
            assert!(
                !bool::from(reference.ct_eq(&other)),
                "ct_eq missed a difference at byte {byte} bit {bit}"
            );
        }
    }
}
