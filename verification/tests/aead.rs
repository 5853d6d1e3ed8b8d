use paramant::aead::{decrypt, encrypt, KEY_LEN, NONCE_LEN, TAG_LEN};

#[test]
fn roundtrip_with_aad() {
    let key = [3u8; KEY_LEN];
    let nonce = [9u8; NONCE_LEN];
    let ct = encrypt(&key, &nonce, b"header", b"the message").unwrap();
    assert_eq!(ct.len(), b"the message".len() + TAG_LEN);
    assert_eq!(decrypt(&key, &nonce, b"header", &ct).unwrap(), b"the message");
}

#[test]
fn tampering_and_wrong_aad_rejected() {
    let key = [3u8; KEY_LEN];
    let nonce = [9u8; NONCE_LEN];
    let mut ct = encrypt(&key, &nonce, b"header", b"msg").unwrap();
    assert!(decrypt(&key, &nonce, b"other", &ct).is_err()); // wrong aad
    let last = ct.len() - 1;
    ct[last] ^= 0x01;
    assert!(decrypt(&key, &nonce, b"header", &ct).is_err()); // tampered tag
    assert!(decrypt(&key, &nonce, b"header", &[0u8; 4]).is_err()); // too short
}

#[test]
fn empty_plaintext_and_aad() {
    let key = [1u8; KEY_LEN];
    let nonce = [2u8; NONCE_LEN];
    let ct = encrypt(&key, &nonce, b"", b"").unwrap();
    assert_eq!(ct.len(), TAG_LEN);
    assert_eq!(decrypt(&key, &nonce, b"", &ct).unwrap(), b"");
}

#[test]
fn ciphertext_differs_from_plaintext_and_short_input_error_text() {
    let key = [4u8; KEY_LEN];
    let nonce = [5u8; NONCE_LEN];
    let pt = b"sixteen byte msg";
    let ct = encrypt(&key, &nonce, b"", pt).unwrap();
    assert_ne!(&ct[..pt.len()], &pt[..]);
    match decrypt(&key, &nonce, b"", &[0u8; 15]) {
        Err(paramant::error::CoreError::Aead(m)) => assert_eq!(m, "ciphertext shorter than the tag"),
        other => panic!("unexpected {:?}", other.map(|v| v.len())),
    }
    // A different key does not open the ciphertext.
    assert!(decrypt(&[6u8; KEY_LEN], &nonce, b"", &ct).is_err());
}
