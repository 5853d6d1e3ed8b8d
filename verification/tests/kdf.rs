use paramant::kdf::{argon2id, hkdf};

fn unhex(s: &str) -> Vec<u8> {
    hex::decode(s).unwrap()
}

#[test]
fn argon2id_roundtrip_and_verify() {
    let salt = b"sixteen-byte-salt";
    let tag = argon2id::hash_password(b"hunter2", salt).unwrap();
    let again = argon2id::hash_password(b"hunter2", salt).unwrap();
    assert_eq!(tag[..], again[..]);
    assert!(argon2id::verify_password(b"hunter2", salt, &tag));
    assert!(!argon2id::verify_password(b"hunter3", salt, &tag));
}

#[test]
fn argon2id_short_salt_errs_and_verify_is_false() {
    assert!(argon2id::hash_password(b"pw", b"short").is_err());
    assert!(!argon2id::verify_password(b"pw", b"short", &[0u8; 32]));
}

#[test]
fn hkdf_expand_length_bounds() {
    let prk = hkdf::extract(b"salt", b"ikm");
    assert_eq!(hkdf::expand(&prk, b"", 8160).unwrap().len(), 8160);
    assert!(hkdf::expand(&prk, b"", 8161).is_err());
    assert_eq!(hkdf::expand(&prk, b"info", 0).unwrap().len(), 0);
}

#[test]
fn hkdf_matches_rfc5869_case_1() {
    let ikm = unhex("0b0b0b0b0b0b0b0b0b0b0b0b0b0b0b0b0b0b0b0b0b0b");
    let salt = unhex("000102030405060708090a0b0c");
    let info = unhex("f0f1f2f3f4f5f6f7f8f9");
    let prk = hkdf::extract(&salt, &ikm);
    assert_eq!(
        prk.to_vec(),
        unhex("077709362c2e32df0ddc3f0dc47bba6390b6c73bb50f9c3122ec844ad7c2b3e5")
    );
    let okm = hkdf::expand(&prk, &info, 42).unwrap();
    assert_eq!(
        okm,
        unhex("3cb25f25faacd57a90434f64d0362f2a2d2d0a90cf1a5a4c5db02d56ecc4c5bf34007208d5b887185865")
    );
}

#[test]
fn hkdf_empty_salt_matches_none() {
    let a = hkdf::extract(b"", b"ikm");
    let (prk, _) = ::hkdf::Hkdf::<sha2::Sha256>::extract(None, b"ikm");
    assert_eq!(a, prk.as_slice());
}

#[test]
fn hkdf_empty_salt_is_the_zero_salt() {
    let a = hkdf::extract(b"", b"ikm");
    let b = hkdf::extract(&[0u8; 32], b"ikm");
    assert_eq!(a, b);
}

#[test]
fn argon2id_tag_is_not_the_password() {
    let tag = argon2id::hash_password(&[0u8; 32], b"saltsalt").unwrap();
    assert_ne!(tag, [0u8; 32]);
    assert_eq!(argon2id::TAG_LEN, 32);
}

#[test]
fn hash_password_uses_the_fixed_costs() {
    assert_eq!((argon2id::M_COST_KIB, argon2id::T_COST, argon2id::P_COST), (19456, 2, 1));
    let params = ::argon2::Params::new(19456, 2, 1, Some(32)).unwrap();
    let mut expected = [0u8; 32];
    ::argon2::Argon2::new(::argon2::Algorithm::Argon2id, ::argon2::Version::V0x13, params)
        .hash_password_into(b"pw", b"saltsalt", &mut expected)
        .unwrap();
    assert_eq!(argon2id::hash_password(b"pw", b"saltsalt").unwrap(), expected);
}
