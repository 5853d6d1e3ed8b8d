use paramant::error::CoreError;
use paramant::kem::hybrid::{
    self, HybridCiphertext, HybridPublicKey, HybridSecretKey, CIPHERTEXT_LEN, PUBLIC_KEY_LEN,
    SECRET_KEY_LEN, SHARED_SECRET_LEN,
};
use paramant::kem::{self, PublicKey, SecretKey, SharedSecret};

#[test]
fn wrong_length_public_key_is_rejected() {
    assert!(matches!(PublicKey::from_bytes(&[0u8; 10]), Err(CoreError::InvalidLength { .. })));
}

#[test]
fn wrong_length_inputs_rejected() {
    assert!(HybridPublicKey::from_bytes(&[0u8; 10]).is_err());
    assert!(HybridCiphertext::from_bytes(&[0u8; 10]).is_err());
    assert!(HybridSecretKey::from_bytes(&[0u8; 10]).is_err());
}

#[test]
fn kem_lengths_are_checked_exactly() {
    match kem::Ciphertext::from_bytes(&[1u8; 1087]) {
        Err(CoreError::InvalidLength { expected, got }) => {
            assert_eq!(expected, kem::CIPHERTEXT_LEN);
            assert_eq!(got, 1087);
        }
        _ => panic!("short ciphertext accepted"),
    }
    let ct = kem::Ciphertext::from_bytes(&[1u8; 1088]).unwrap();
    assert_eq!(ct.as_bytes(), &[1u8; 1088][..]);
    assert!(SecretKey::from_bytes(&[0u8; 2400]).is_ok());
    assert!(SharedSecret::from_bytes(&[0u8; 31]).is_err());
}

fn kem_parts(seed: u8) -> (PublicKey, SecretKey, kem::Ciphertext, SharedSecret) {
    (
        PublicKey::from_bytes(&[seed; kem::PUBLIC_KEY_LEN]).unwrap(),
        SecretKey::from_bytes(&[seed ^ 0x55; kem::SECRET_KEY_LEN]).unwrap(),
        kem::Ciphertext::from_bytes(&[seed ^ 0xAA; kem::CIPHERTEXT_LEN]).unwrap(),
        SharedSecret::from_bytes(&[seed ^ 0x0F; kem::SHARED_SECRET_LEN]).unwrap(),
    )
}

#[test]
fn hybrid_ecdh_half_roundtrips_with_the_same_kem_secret() {
    let (kem_pk, kem_sk, kem_ct, kem_ss) = kem_parts(3);
    let (pk, sk) = hybrid::keygen(&kem_pk, &kem_sk).unwrap();
    assert_eq!(pk.as_bytes().len(), PUBLIC_KEY_LEN);
    assert_eq!(sk.as_bytes().len(), SECRET_KEY_LEN);
    assert_eq!(&pk.as_bytes()[..kem::PUBLIC_KEY_LEN], kem_pk.as_bytes());
    assert_eq!(pk.as_bytes()[kem::PUBLIC_KEY_LEN], 0x04);
    assert_eq!(pk.kem_public_key().as_bytes(), kem_pk.as_bytes());

    let (ct, ss_sender) = hybrid::encaps(&pk, &kem_ct, &kem_ss).unwrap();
    assert_eq!(ct.as_bytes().len(), CIPHERTEXT_LEN);
    assert_eq!(&ct.as_bytes()[..kem::CIPHERTEXT_LEN], kem_ct.as_bytes());
    let ss_receiver = hybrid::decaps(&sk, &ct, &kem_ss).unwrap();
    assert_eq!(ss_sender.as_bytes(), ss_receiver.as_bytes());
    assert_eq!(ss_sender.as_bytes().len(), SHARED_SECRET_LEN);
}

#[test]
fn hybrid_other_keypair_or_kem_secret_disagrees() {
    let (kem_pk, kem_sk, kem_ct, kem_ss) = kem_parts(7);
    let (pk1, sk1) = hybrid::keygen(&kem_pk, &kem_sk).unwrap();
    let (_pk2, sk2) = hybrid::keygen(&kem_pk, &kem_sk).unwrap();
    let (ct, ss) = hybrid::encaps(&pk1, &kem_ct, &kem_ss).unwrap();
    assert_eq!(hybrid::decaps(&sk1, &ct, &kem_ss).unwrap().as_bytes(), ss.as_bytes());
    assert_ne!(hybrid::decaps(&sk2, &ct, &kem_ss).unwrap().as_bytes(), ss.as_bytes());
    let other_ss = SharedSecret::from_bytes(&[0xEEu8; 32]).unwrap();
    assert_ne!(hybrid::decaps(&sk1, &ct, &other_ss).unwrap().as_bytes(), ss.as_bytes());
}

#[test]
fn hybrid_deterministic_parts_and_invalid_scalar() {
    let (kem_pk, kem_sk, kem_ct, kem_ss) = kem_parts(9);
    let mut scalar = [0u8; 32];
    scalar[31] = 1;
    let (pk, sk) = hybrid::keypair_from_parts(&kem_pk, &kem_sk, &scalar).unwrap();
    assert_eq!(&sk.as_bytes()[kem::SECRET_KEY_LEN..], &scalar[..]);
    // The point of scalar 1 is the P-256 generator.
    assert_eq!(
        hex::encode(&pk.as_bytes()[kem::PUBLIC_KEY_LEN..]),
        "046b17d1f2e12c4247f8bce6e563a440f277037d812deb33a0f4a13945d898c2964fe342e2fe1a7f9b8ee7eb4a7c0f9e162bce33576b315ececbb6406837bf51f5"
    );
    let mut eph = [0u8; 32];
    eph[31] = 2;
    let (ct1, ss1) = hybrid::encaps_with_ephemeral(&pk, &kem_ct, &kem_ss, &eph).unwrap();
    let (ct2, ss2) = hybrid::encaps_with_ephemeral(&pk, &kem_ct, &kem_ss, &eph).unwrap();
    assert_eq!(ct1.as_bytes(), ct2.as_bytes());
    assert_eq!(ss1.as_bytes(), ss2.as_bytes());
    assert_eq!(hybrid::decaps(&sk, &ct1, &kem_ss).unwrap().as_bytes(), ss1.as_bytes());
    // Zero is not a valid scalar.
    assert!(matches!(
        hybrid::keypair_from_parts(&kem_pk, &kem_sk, &[0u8; 32]),
        Err(CoreError::Kem(_))
    ));
    assert!(matches!(
        hybrid::encaps_with_ephemeral(&pk, &kem_ct, &kem_ss, &[0u8; 32]),
        Err(CoreError::Kem(_))
    ));
}
