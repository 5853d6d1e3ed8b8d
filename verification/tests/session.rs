use paramant::error::ParamantError;
use paramant::identity::Identity;
use paramant::session::{HandshakePacket, Session};

#[test]
fn test_full_handshake_and_messaging() {
    let alice_id = Identity::generate().unwrap();
    let bob_id = Identity::generate().unwrap();

    let mut alice = Session::new(alice_id);
    let mut bob = Session::new(bob_id);

    let alice_hello = alice.initiate().unwrap();
    let bob_response = bob.respond(&alice_hello).unwrap();
    alice.complete(&bob_response).unwrap();

    let msg = b"Geheime boodschap";
    let encrypted = alice.encrypt(msg).unwrap();
    let decrypted = bob.decrypt(&encrypted).unwrap();
    assert_eq!(decrypted, msg);

    let reply = b"Ontvangen!";
    let encrypted2 = bob.encrypt(reply).unwrap();
    let decrypted2 = alice.decrypt(&encrypted2).unwrap();
    assert_eq!(decrypted2, reply);
}

#[test]
fn messaging_before_handshake_is_refused() {
    let mut s = Session::new(Identity::generate().unwrap());
    assert!(matches!(s.encrypt(b"x"), Err(ParamantError::SessionNotInitialized)));
    let packet = HandshakePacket { ecdh_pub: String::new(), kem_pub: String::new(), kem_ct: None };
    assert!(matches!(s.complete(&packet), Err(ParamantError::SessionNotInitialized)));
}

#[test]
fn malformed_handshake_packets_are_refused() {
    let mut alice = Session::new(Identity::generate().unwrap());
    let mut bob = Session::new(Identity::generate().unwrap());
    let hello = alice.initiate().unwrap();
    assert!(alice.is_initiator);
    assert_eq!(hello.ecdh_pub.len(), 130);
    assert!(hello.kem_ct.is_none());

    let bad_hex = HandshakePacket { ecdh_pub: "zz".into(), kem_pub: hello.kem_pub.clone(), kem_ct: None };
    assert!(matches!(bob.respond(&bad_hex), Err(ParamantError::InvalidKey(_))));
    assert!(bob.ratchet.is_none());
    let bad_point = HandshakePacket { ecdh_pub: "04".repeat(65), kem_pub: hello.kem_pub.clone(), kem_ct: None };
    assert!(matches!(bob.respond(&bad_point), Err(ParamantError::InvalidKey(_))));
    let short_kem = HandshakePacket { ecdh_pub: hello.ecdh_pub.clone(), kem_pub: "00".into(), kem_ct: None };
    assert!(matches!(bob.respond(&short_kem), Err(ParamantError::InvalidKey(_))));

    let answer = bob.respond(&hello).unwrap();
    let no_ct = HandshakePacket { ecdh_pub: answer.ecdh_pub.clone(), kem_pub: answer.kem_pub.clone(), kem_ct: None };
    assert!(matches!(alice.complete(&no_ct), Err(ParamantError::InvalidKey(_))));
    // The pending key is used up by the failed attempt.
    assert!(matches!(alice.complete(&answer), Err(ParamantError::SessionNotInitialized)));
}

#[test]
fn checked_session_decrypt() {
    let mut alice = Session::new(Identity::generate().unwrap());
    let mut bob = Session::new(Identity::generate().unwrap());
    let hello = alice.initiate().unwrap();
    let answer = bob.respond(&hello).unwrap();
    alice.complete(&answer).unwrap();
    let m = alice.encrypt(b"hi").unwrap();
    let mut bad = m.clone();
    bad.nonce = "abcd".into();
    assert!(matches!(bob.decrypt_checked(&bad), Err(ParamantError::DecryptionFailed)));
    assert_eq!(bob.decrypt_checked(&m).unwrap(), b"hi");
}

#[test]
fn handshake_starts_both_ratchets_without_kem_steps() {
    let mut alice = Session::new(Identity::generate().unwrap());
    let mut bob = Session::new(Identity::generate().unwrap());
    let hello = alice.initiate().unwrap();
    let response = bob.respond(&hello).unwrap();
    alice.complete(&response).unwrap();
    assert_eq!(alice.ratchet.as_ref().unwrap().kem_count, 0);
    assert_eq!(bob.ratchet.as_ref().unwrap().kem_count, 0);
}
