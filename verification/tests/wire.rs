use paramant::error::CoreError;
use paramant::wire::{header_aad, Envelope, Header, KemId, SigId, HEADER_FIXED_SIZE};

fn sample(signature: Option<Vec<u8>>, sig_id: SigId) -> Envelope {
    Envelope {
        header: Header { kem_id: KemId::MlKem768, sig_id, flags: 0 },
        ct_kem: vec![1, 2, 3],
        sender_pub: vec![4, 5],
        signature,
        nonce: [9u8; 12],
        ciphertext: vec![7u8; 20],
    }
}

#[test]
fn encode_layout_and_roundtrip() {
    let e = sample(None, SigId::NoSignature);
    let bytes = e.encode().unwrap();
    assert_eq!(&bytes[..HEADER_FIXED_SIZE], &[0x50, 0x51, 0x48, 0x42, 0x01, 0x00, 0x02, 0x00, 0x00, 0x00]);
    assert_eq!(&bytes[10..17], &[0, 0, 0, 3, 1, 2, 3]);
    assert_eq!(bytes.len(), 10 + 7 + 6 + 12 + 24);
    assert_eq!(Envelope::decode(&bytes).unwrap(), e);
}

#[test]
fn signed_envelope_roundtrips_and_prefix_ignores_padding() {
    let e = sample(Some(vec![0xAA; 5]), SigId::MlDsa65);
    let mut bytes = e.encode().unwrap();
    let n = bytes.len();
    bytes.extend_from_slice(&[0xFF; 33]);
    let (d, consumed) = Envelope::decode_prefix(&bytes).unwrap();
    assert_eq!(consumed, n);
    assert_eq!(d, e);
    assert!(Envelope::decode(&bytes).is_err());
}

#[test]
fn malformed_envelopes_are_rejected() {
    let e = sample(None, SigId::NoSignature);
    let bytes = e.encode().unwrap();
    let mut bad_magic = bytes.clone();
    bad_magic[0] = 0;
    assert!(matches!(Envelope::decode(&bad_magic), Err(CoreError::Wire(_))));
    let mut bad_kem = bytes.clone();
    bad_kem[6] = 0x09;
    assert!(matches!(
        Envelope::decode(&bad_kem),
        Err(CoreError::UnknownAlgorithm { kind: "KEM", id: 9 })
    ));
    assert!(Envelope::decode(&bytes[..bytes.len() - 1]).is_err());
    assert!(Envelope::decode(&[]).is_err());
}

#[test]
fn identifiers_map_to_codes() {
    assert_eq!(KemId::MlKem768.as_u16(), 2);
    assert_eq!(KemId::from_u16(3).unwrap(), KemId::MlKem1024);
    assert!(KemId::from_u16(4).is_err());
    assert_eq!(SigId::from_u16(0x0100).unwrap(), SigId::Falcon512);
    assert_eq!(SigId::from_u16(0x020B).unwrap(), SigId::SlhDsaShake256f);
    assert!(matches!(SigId::from_u16(0x0300), Err(CoreError::UnknownAlgorithm { kind: "SIG", id: 0x0300 })));
    assert!(SigId::NoSignature.is_none());
    assert!(!SigId::MlDsa65.is_none());
}

#[test]
fn aad_is_header_and_chunk_index() {
    let e = sample(None, SigId::NoSignature);
    let aad = e.aad_for_chunk(0x01020304);
    assert_eq!(&aad[..10], &[0x50, 0x51, 0x48, 0x42, 0x01, 0x00, 0x02, 0x00, 0x00, 0x00]);
    assert_eq!(&aad[10..], &[1, 2, 3, 4]);
    assert_eq!(header_aad(e.header, 0x01020304), aad);
}

#[test]
fn accepted_bytes_encode_back_exactly() {
    let e = sample(Some(vec![1, 2, 3, 4]), SigId::Falcon512);
    let bytes = e.encode().unwrap();
    let decoded = Envelope::decode(&bytes).unwrap();
    assert_eq!(decoded.encode().unwrap(), bytes);
    let mut with_flags = e.clone();
    with_flags.header.flags = 1;
    assert!(matches!(with_flags.encode(), Err(CoreError::Wire("flags must be 0x00 in v1"))));
    let mut unsigned = e.clone();
    unsigned.signature = None;
    assert!(matches!(unsigned.encode(), Err(CoreError::Wire("signature absent with non-zero SIG_ID"))));
}

#[test]
fn try_from_codes() {
    assert_eq!(KemId::try_from(1u16).unwrap(), KemId::MlKem512);
    assert!(matches!(KemId::try_from(0u16), Err(CoreError::UnknownAlgorithm { kind: "KEM", id: 0 })));
    assert_eq!(SigId::try_from(0u16).unwrap(), SigId::NoSignature);
    assert_eq!(SigId::try_from(2u16).unwrap(), SigId::MlDsa65);
    assert!(SigId::try_from(0x0102u16).is_err());
}

#[test]
fn decode_rejects_tampered_envelopes() {
    let good = sample(Some(vec![0xAB; 8]), SigId::MlDsa65).encode().unwrap();
    assert!(Envelope::decode(&good).is_ok(), "control: decodes");

    let mut bad_magic = good.clone();
    bad_magic[0] ^= 0x01;
    assert!(Envelope::decode(&bad_magic).is_err(), "bad magic");

    let mut bad_version = good.clone();
    bad_version[4] = 0x02;
    assert!(Envelope::decode(&bad_version).is_err(), "unsupported version");

    let mut bad_flags = good.clone();
    bad_flags[9] = 0x01;
    assert!(Envelope::decode(&bad_flags).is_err(), "non-zero flags");

    let mut bad_kem = good.clone();
    bad_kem[5..7].copy_from_slice(&0x00ffu16.to_be_bytes());
    assert!(Envelope::decode(&bad_kem).is_err(), "unknown KEM id");

    let mut bad_sig = good.clone();
    bad_sig[7..9].copy_from_slice(&0x0fffu16.to_be_bytes());
    assert!(Envelope::decode(&bad_sig).is_err(), "unknown SIG id");

    assert!(Envelope::decode(&good[..good.len() - 1]).is_err(), "truncated ciphertext");

    let mut trailing = good.clone();
    trailing.push(0x00);
    assert!(Envelope::decode(&trailing).is_err(), "trailing byte");

    assert!(Envelope::decode(&good[..9]).is_err(), "shorter than header");
}
