use paramant::envelope::{pad_to_block, para_drop, para_share, send};
use paramant::error::CoreError;
use paramant::mnemonic::Mnemonic;
use paramant::sig::ml_dsa_65;
use paramant::wire::{Envelope, KemId, SigId};

#[test]
fn send_core_roundtrips_and_rejects_other_secret() {
    let ct_kem = [0x11u8; 1088];
    let ss = [0x22u8; 32];
    let e = send::seal_core(KemId::MlKem768, &ct_kem, &ss, b"sender", &[3u8; 12], b"hello").unwrap();
    assert_eq!(e.header.sig_id, SigId::NoSignature);
    assert_eq!(send::open_core(&e, &ss).unwrap(), b"hello");
    assert!(send::open_core(&e, &[0x23u8; 32]).is_err());
    assert!(matches!(
        send::derive_key(&[0u8; 31], &ss),
        Err(CoreError::Wire("ct_kem shorter than HKDF salt"))
    ));
}

#[test]
fn send_blob_pads_and_decodes() {
    let ct_kem = [0x33u8; 1088];
    let ss = [0x44u8; 32];
    let blob = send::encrypt_encapsulated(&ct_kem, &ss, b"me", b"payload", 4096).unwrap();
    assert_eq!(blob.len(), 4096);
    let (e, ct) = send::decode_blob(&blob).unwrap();
    assert_eq!(ct.as_bytes(), &ct_kem[..]);
    assert_eq!(send::open_core(&e, &ss).unwrap(), b"payload");
    assert!(send::encrypt_encapsulated(&ct_kem, &ss, b"me", b"payload", 100).is_err());
}

#[test]
fn share_core_needs_a_true_verdict() {
    let ct_kem = [0x55u8; 1088];
    let ss = [0x66u8; 32];
    let signer = ml_dsa_65::PublicKey::from_bytes(&[7u8; ml_dsa_65::PUBLIC_KEY_LEN]).unwrap();
    let (unsigned, msg) = para_share::encrypt_unsigned(&ct_kem, &ss, &signer, b"shared").unwrap();
    assert!(unsigned.signature.is_none());
    let sig = ml_dsa_65::Signature::from_bytes(&[9u8; ml_dsa_65::SIGNATURE_LEN]).unwrap();
    let blob = para_share::encrypt_signed(unsigned, &sig, 16384).unwrap();
    let (e, _ct) = para_share::decode_blob(&blob).unwrap();
    let (pk, msg2, sig2) = para_share::signed_parts(&e).unwrap();
    assert_eq!(pk.as_bytes(), signer.as_bytes());
    assert_eq!(msg2, msg);
    assert_eq!(sig2.as_bytes(), sig.as_bytes());
    assert_eq!(para_share::open_core(&e, &ss, Ok(true)).unwrap(), b"shared");
    assert!(para_share::open_core(&e, &ss, Ok(false)).is_err());
}

#[test]
fn drop_packet_roundtrips_and_ignores_padding() {
    let entropy = [0x42u8; 16];
    let nonce = [1u8; 12];
    let packet = para_drop::seal(&entropy, &nonce, b"drop me").unwrap();
    assert_eq!(&packet[..12], &nonce);
    assert_eq!(&packet[12..16], &(7u32 + 16).to_be_bytes());
    assert_eq!(para_drop::open(&entropy, &packet).unwrap(), b"drop me");
    let padded = pad_to_block(packet.clone(), 4096).unwrap();
    assert_eq!(padded.len(), 4096);
    assert_eq!(para_drop::open(&entropy, &padded).unwrap(), b"drop me");
    assert!(matches!(para_drop::open(&[0x43u8; 16], &packet), Err(CoreError::Aead(_))));
    assert!(matches!(
        para_drop::open(&entropy, &packet[..15]),
        Err(CoreError::Wire("drop packet shorter than header"))
    ));
    assert!(matches!(
        para_drop::open(&entropy, &packet[..packet.len() - 1]),
        Err(CoreError::Wire("ct_len exceeds packet"))
    ));
}

#[test]
fn drop_and_pickup_through_the_mnemonic() {
    let (m, blob) = para_drop::drop(b"secret note", 4096).unwrap();
    assert_eq!(m.word_count(), 12);
    assert_eq!(blob.len(), 4096);
    assert_eq!(para_drop::pickup(&m, &blob).unwrap(), b"secret note");
    let again = Mnemonic::parse(&m.phrase()).unwrap();
    assert_eq!(para_drop::pickup(&again, &blob).unwrap(), b"secret note");
    let other = Mnemonic::generate_from_entropy([0u8; 16]).unwrap();
    assert!(para_drop::pickup(&other, &blob).is_err());
    assert!(para_drop::drop(b"too big", 20).is_err());
}

#[test]
fn lookup_id_is_deterministic_and_keyed() {
    let a = para_drop::lookup_id(&[1u8; 16]).unwrap();
    assert_eq!(a, para_drop::lookup_id(&[1u8; 16]).unwrap());
    assert_ne!(a, para_drop::lookup_id(&[2u8; 16]).unwrap());
    let (key, id) = para_drop::derive(&[1u8; 16]).unwrap();
    assert_eq!(id, a);
    assert_ne!(key, id);
}

#[test]
fn unknown_signature_identifier_in_share_blob() {
    let e = Envelope {
        header: paramant::wire::Header { kem_id: KemId::MlKem768, sig_id: SigId::NoSignature, flags: 0 },
        ct_kem: vec![0u8; 1088],
        sender_pub: vec![],
        signature: None,
        nonce: [0u8; 12],
        ciphertext: vec![0u8; 16],
    };
    assert!(para_share::signed_parts(&e).is_err());
}

#[test]
fn signed_blob_errors_follow_the_encoding() {
    let e = Envelope {
        header: paramant::wire::Header { kem_id: KemId::MlKem768, sig_id: SigId::NoSignature, flags: 0 },
        ct_kem: vec![0u8; 1088],
        sender_pub: vec![1u8; 4],
        signature: None,
        nonce: [0u8; 12],
        ciphertext: vec![0u8; 16],
    };
    let sig = ml_dsa_65::Signature::from_bytes(&[9u8; ml_dsa_65::SIGNATURE_LEN]).unwrap();
    assert!(matches!(
        para_share::encrypt_signed(e.clone(), &sig, 65536),
        Err(CoreError::Wire("signature present with SIG_ID 0x0000"))
    ));
    let mut signed = e;
    signed.header.sig_id = SigId::MlDsa65;
    assert!(matches!(
        para_share::encrypt_signed(signed, &sig, 100),
        Err(CoreError::Wire("encoded core larger than pad_block"))
    ));
}

#[test]
fn signature_types_clone_their_bytes() {
    let pk = ml_dsa_65::PublicKey::from_bytes(&[5u8; ml_dsa_65::PUBLIC_KEY_LEN]).unwrap();
    let sig = ml_dsa_65::Signature::from_bytes(&[6u8; ml_dsa_65::SIGNATURE_LEN]).unwrap();
    let pk2 = pk.clone();
    let sig2 = sig.clone();
    assert!(pk2 == pk);
    assert!(sig2 == sig);
    assert_eq!(pk2.as_bytes().len(), ml_dsa_65::PUBLIC_KEY_LEN);
    assert_eq!(sig2.as_bytes(), &[6u8; ml_dsa_65::SIGNATURE_LEN][..]);
    assert!(ml_dsa_65::Signature::from_bytes(&[6u8; 10]).is_err());
}
