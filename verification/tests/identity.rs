use paramant::error::ParamantError;
use paramant::identity::{Identity, PeerPublicKeys};
use sha2::{Digest, Sha256};

#[test]
fn address_reads_back_to_the_public_keys() {
    let id = Identity::generate().unwrap();
    let address = id.public_address();
    assert!(address.starts_with("{\"ecdh\":\""));
    let peer = PeerPublicKeys::from_address(&address).unwrap();
    assert_eq!(peer.ecdh, id.ecdh.public_key());
    assert_eq!(peer.kem, id.kem.public_key());
}

#[test]
fn address_errors_and_missing_members() {
    assert!(matches!(PeerPublicKeys::from_address("not json"), Err(ParamantError::Serialization(_))));
    assert!(matches!(
        PeerPublicKeys::from_address("{\"ecdh\":\"zz\",\"kem\":\"00\"}"),
        Err(ParamantError::InvalidKey(_))
    ));
    let empty = PeerPublicKeys::from_address("{}").unwrap();
    assert!(empty.ecdh.is_empty() && empty.kem.is_empty());
    let upper = PeerPublicKeys::from_address("{\"ecdh\":\"0A0b\",\"kem\":\"ff\"}").unwrap();
    assert_eq!(upper.ecdh, vec![0x0a, 0x0b]);
    assert_eq!(upper.kem, vec![0xff]);
}

#[test]
fn fingerprint_hashes_both_public_keys() {
    let id = Identity::generate().unwrap();
    let mut h = Sha256::new();
    h.update(id.ecdh.public_key());
    h.update(id.kem.public_key());
    let expected: [u8; 32] = h.finalize().into();
    assert_eq!(id.fingerprint(), expected);
}

#[test]
fn address_members_are_named_ecdh_and_kem() {
    let id = Identity::generate().unwrap();
    let v: serde_json::Value = serde_json::from_str(&id.public_address()).unwrap();
    assert_eq!(v["ecdh"].as_str().unwrap(), hex::encode(id.ecdh.public_key()));
    assert_eq!(v["kem"].as_str().unwrap(), hex::encode(id.kem.public_key()));
}
