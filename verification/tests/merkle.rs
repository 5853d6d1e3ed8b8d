use paramant::merkle::{MerkleTree, SignedTreeHead};

#[test]
fn empty_tree_root_is_sha256_of_empty() {
    let t = MerkleTree::new();
    assert_eq!(t.size(), 0);
    assert_eq!(
        hex::encode(t.root()),
        "e3b0c44298fc1c149afbf4c8996fb92427ae41e4649b934ca495991b7852b855"
    );
}

#[test]
fn single_leaf_root_is_leaf_hash() {
    let mut t = MerkleTree::new();
    t.append(b"");
    // SHA-256(0x00)
    assert_eq!(
        hex::encode(t.root()),
        "6e340b9cffb37a989ca544e6bb780a2c78901d3fb33738768511a30617afa01d"
    );
}

#[test]
fn proofs_verify_and_tamper_rejected() {
    let mut t = MerkleTree::new();
    for i in 0..17u8 {
        t.append(&[i]);
    }
    let root = t.root();
    for i in 0..t.size() {
        let proof = t.inclusion_proof(i).unwrap();
        assert!(MerkleTree::verify_inclusion(&root, &[i as u8], i, t.size(), &proof));
        let mut bad = proof.clone();
        if let Some(first) = bad.first_mut() {
            first[0] ^= 0x01;
            assert!(!MerkleTree::verify_inclusion(&root, &[i as u8], i, t.size(), &bad));
        }
    }
    assert!(t.inclusion_proof(t.size()).is_err());
}

#[test]
fn wrong_leaf_index_or_size_rejected() {
    let mut t = MerkleTree::new();
    for i in 0..5u8 {
        t.append(&[i]);
    }
    let root = t.root();
    let proof = t.inclusion_proof(2).unwrap();
    assert!(!MerkleTree::verify_inclusion(&root, &[3u8], 2, 5, &proof));
    assert!(!MerkleTree::verify_inclusion(&root, &[2u8], 2, 2, &proof));
    assert!(!MerkleTree::verify_inclusion(&root, &[2u8], 5, 5, &proof));
    let mut longer = proof.clone();
    longer.push([0u8; 32]);
    assert!(!MerkleTree::verify_inclusion(&root, &[2u8], 2, 5, &longer));
}

#[test]
fn tree_head_message_layout() {
    let mut t = MerkleTree::new();
    t.append(b"a");
    t.append(b"b");
    let (size, root, msg) = SignedTreeHead::signing_input(&t, 0x0102030405060708);
    assert_eq!(size, 2);
    assert_eq!(root, t.root());
    assert_eq!(&msg[..8], &[0, 0, 0, 0, 0, 0, 0, 2]);
    assert_eq!(&msg[8..16], &[1, 2, 3, 4, 5, 6, 7, 8]);
    assert_eq!(&msg[16..], &root[..]);
    let sth = SignedTreeHead::from_signature(&t, 0x0102030405060708, vec![9u8; 3]);
    assert_eq!(sth.signed_message(), msg);
    assert_eq!(SignedTreeHead::message(2, 0x0102030405060708, &root), msg);
}
