use paramant::crypto::kdf::{derive_master, MasterKey};
use paramant::error::ParamantError;
use paramant::ratchet::{RatchetChain, RatchetState, KEM_IV};

fn test_master() -> MasterKey {
    derive_master(&[1u8; 32], &[2u8; 32])
}

#[test]
fn test_ratchet_roundtrip() {
    let master = test_master();
    let mut alice = RatchetState::new_initiator(&master);
    let mut bob = RatchetState::new_responder(&master);

    let msg = b"Hallo Bob!";
    let encrypted = alice.send_chain.encrypt(msg, "msg").unwrap();
    let decrypted = bob.receive_chain.decrypt(&encrypted, "msg").unwrap();
    assert_eq!(decrypted, msg);

    let reply = b"Hallo Alice!";
    let encrypted2 = bob.send_chain.encrypt(reply, "msg").unwrap();
    let decrypted2 = alice.receive_chain.decrypt(&encrypted2, "msg").unwrap();
    assert_eq!(decrypted2, reply);
}

#[test]
fn test_replay_rejected() {
    let master = test_master();
    let mut sender = RatchetChain::new(&master, b"chain-A-v2");
    let mut receiver = RatchetChain::new(&master, b"chain-A-v2");

    let encrypted = sender.encrypt(b"test", "msg").unwrap();
    let _ = receiver.decrypt(&encrypted, "msg").unwrap();

    assert!(matches!(receiver.decrypt(&encrypted, "msg"), Err(ParamantError::ReplayDetected)));
}

#[test]
fn test_kem_injection_trigger() {
    let master = test_master();
    let mut state = RatchetState::new_initiator(&master);
    assert!(!state.needs_kem_injection());
    state.send_chain.seq = KEM_IV;
    assert!(state.needs_kem_injection());
}

#[test]
fn chains_advance_in_step_over_many_messages() {
    let master = test_master();
    let mut sender = RatchetChain::new(&master, b"chain-B-v2");
    let mut receiver = RatchetChain::new(&master, b"chain-B-v2");
    for i in 0..10u8 {
        let m = sender.encrypt(&[i; 5], "msg").unwrap();
        assert_eq!(m.seq, i as u64);
        assert_eq!(receiver.decrypt(&m, "msg").unwrap(), vec![i; 5]);
    }
    assert_eq!(sender.seq, 10);
    assert_eq!(receiver.seq, 10);
}

#[test]
fn failed_decrypt_leaves_the_chain_unchanged() {
    let master = test_master();
    let mut sender = RatchetChain::new(&master, b"chain-A-v2");
    let mut receiver = RatchetChain::new(&master, b"chain-A-v2");
    let m = sender.encrypt(b"typed", "msg").unwrap();
    assert!(matches!(receiver.decrypt(&m, "other"), Err(ParamantError::DecryptionFailed)));
    assert_eq!(receiver.seq, 0);
    assert_eq!(receiver.decrypt(&m, "msg").unwrap(), b"typed");
    // Messages out of order do not open: the chain key has moved on.
    let m1 = sender.encrypt(b"one", "msg").unwrap();
    let m2 = sender.encrypt(b"two", "msg").unwrap();
    assert!(receiver.decrypt(&m2, "msg").is_err());
    assert_eq!(receiver.decrypt(&m1, "msg").unwrap(), b"one");
}

#[test]
fn kem_injection_restarts_chain_keys() {
    let master = test_master();
    let mut alice = RatchetState::new_initiator(&master);
    let mut bob = RatchetState::new_responder(&master);
    alice.inject_kem(&[5u8; 32], &[6u8; 32]);
    bob.inject_kem(&[5u8; 32], &[6u8; 32]);
    assert_eq!(alice.kem_count, 1);
    // Both sides restart the sending chain from the same label, so the
    // initiator's messages no longer open on the responder's receiving chain.
    let m = alice.send_chain.encrypt(b"after", "msg").unwrap();
    assert!(bob.receive_chain.decrypt(&m, "msg").is_err());
}

#[test]
fn checked_decrypt_and_counter() {
    let master = test_master();
    let mut sender = RatchetChain::new(&master, b"chain-A-v2");
    let mut receiver = RatchetChain::new(&master, b"chain-A-v2");
    let m = sender.encrypt(b"one", "msg").unwrap();
    assert_eq!(sender.seq(), 1);
    let mut bad = m.clone();
    bad.nonce = "00".into();
    assert!(matches!(receiver.decrypt_checked(&bad, "msg"), Err(ParamantError::DecryptionFailed)));
    assert_eq!(receiver.seq(), 0);
    assert_eq!(receiver.decrypt_checked(&m, "msg").unwrap(), b"one");
    assert_eq!(receiver.seq(), 1);
}
