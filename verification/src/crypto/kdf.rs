//! The chat key schedule over HKDF-SHA256 (unsalted): the master key from
//! the ECDH and KEM secrets, a chain key per direction, and one message key
//! and the next chain key per ratchet step.

use vstd::prelude::*;

use crate::bytes::{append_bytes, to_array32};
use crate::kdf::hkdf::{hkdf_expand_raw, hkdf_expand_spec, hkdf_extract_raw, hkdf_extract_spec};

verus! {

/// HKDF `info` of the master key: `"paramant-master-v1"`.
pub const MASTER_INFO: [u8; 18] = [
    0x70, 0x61, 0x72, 0x61, 0x6d, 0x61, 0x6e, 0x74, 0x2d, 0x6d, 0x61, 0x73, 0x74, 0x65, 0x72, 0x2d,
    0x76, 0x31,
];
/// HKDF `info` of a message key: `"msg"`.
pub const MSG_INFO: [u8; 3] = [0x6d, 0x73, 0x67];
/// HKDF `info` of the next chain key: `"chain"`.
pub const CHAIN_INFO: [u8; 5] = [0x63, 0x68, 0x61, 0x69, 0x6e];

/// A 32-byte session master key.
pub struct MasterKey(pub [u8; 32]);

impl Clone for MasterKey {
    fn clone(&self) -> (r: Self)
        ensures
            r.0@ == self.0@,
    {
        MasterKey(self.0)
    }
}

/// HKDF with no salt: 32 bytes expanded under `info` from `ikm`.
pub open spec fn hkdf32(ikm: Seq<u8>, info: Seq<u8>) -> Seq<u8> {
    hkdf_expand_spec(hkdf_extract_spec(None, ikm), info, 32)
}

/// The master key of an ECDH and a KEM shared secret.
pub open spec fn master_spec(ecdh_shared: Seq<u8>, kem_shared: Seq<u8>) -> Seq<u8> {
    hkdf32(ecdh_shared + kem_shared, MASTER_INFO@)
}

/// The chain key labelled `label` under a master key.
pub open spec fn chain_key_spec(master: Seq<u8>, label: Seq<u8>) -> Seq<u8> {
    hkdf32(master, label)
}

/// The message key of a ratchet step from `chain_key`.
pub open spec fn message_key_spec(chain_key: Seq<u8>) -> Seq<u8> {
    hkdf32(chain_key, MSG_INFO@)
}

/// The chain key after a ratchet step from `chain_key`.
pub open spec fn next_chain_spec(chain_key: Seq<u8>) -> Seq<u8> {
    hkdf32(chain_key, CHAIN_INFO@)
}

/// HKDF-SHA256 with no salt, 32 bytes of output.
fn hkdf_32(ikm: &[u8], info: &[u8]) -> (r: [u8; 32])
    ensures
        r@ == hkdf32(ikm@, info@),
{
    let prk = hkdf_extract_raw(None, ikm);
    let okm = hkdf_expand_raw(&prk, info, 32).unwrap();
    to_array32(okm.as_slice())
}

/// Derive the master key from the ECDH and KEM shared secrets
/// (`ikm = ecdh ‖ kem`, `info = "paramant-master-v1"`).
pub fn derive_master(ecdh_shared: &[u8], kem_shared: &[u8]) -> (r: MasterKey)
    ensures
        r.0@ == master_spec(ecdh_shared@, kem_shared@),
        r.0@ == hkdf_expand_spec(hkdf_extract_spec(None, ecdh_shared@ + kem_shared@), MASTER_INFO@, 32),
{
    let mut ikm: Vec<u8> = Vec::new();
    append_bytes(&mut ikm, ecdh_shared);
    append_bytes(&mut ikm, kem_shared);
    MasterKey(hkdf_32(ikm.as_slice(), &MASTER_INFO))
}

/// Derive the chain key labelled `label` from the master key.
pub fn derive_chain_key(master: &MasterKey, label: &[u8]) -> (r: [u8; 32])
    ensures
        r@ == chain_key_spec(master.0@, label@),
        r@ == hkdf_expand_spec(hkdf_extract_spec(None, master.0@), label@, 32),
{
    hkdf_32(&master.0, label)
}

/// One ratchet step: the message key and the next chain key of `chain_key`.
pub fn derive_message_key(chain_key: &[u8; 32]) -> (r: ([u8; 32], [u8; 32]))
    ensures
        r.0@ == message_key_spec(chain_key@),
        r.1@ == next_chain_spec(chain_key@),
        r.0@ == hkdf_expand_spec(hkdf_extract_spec(None, chain_key@), MSG_INFO@, 32),
        r.1@ == hkdf_expand_spec(hkdf_extract_spec(None, chain_key@), CHAIN_INFO@, 32),
{
    let msg_key = hkdf_32(chain_key, &MSG_INFO);
    let next_chain = hkdf_32(chain_key, &CHAIN_INFO);
    (msg_key, next_chain)
}

} // verus!
