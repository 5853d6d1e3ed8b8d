//! The chat ratchet: one symmetric chain per direction.
//!
//! - Chain A (`"chain-A-v2"`): initiator → responder.
//! - Chain B (`"chain-B-v2"`): responder → initiator.
//!
//! Each message moves its chain one step: the chain key yields a message key
//! and the next chain key. A receiving chain remembers the nonces it has
//! accepted and rejects a message whose nonce it has seen. Every
//! [`KEM_IV`] sent messages a fresh KEM secret is injected.

use vstd::prelude::*;
use vstd::string::StringExecFns;
use vstd::utf8::encode_utf8;

use crate::crypto::aead::{self as chat_aead, decrypt_spec, nonce_well_sized, sealed_message, EncryptedMessage};
use crate::crypto::kdf::{
    self as chat_kdf, chain_key_spec, master_spec, message_key_spec, next_chain_spec, MasterKey,
};
use crate::encoding::{hex_encode, hex_encode_spec};
use crate::error::{ParamantError, ParamantResult};

verus! {

/// A fresh KEM secret is injected every eight sent messages.
pub const KEM_IV: u64 = 8;

/// Chain label of the initiator's sending direction: `"chain-A-v2"`.
pub const CHAIN_A: [u8; 10] = [0x63, 0x68, 0x61, 0x69, 0x6e, 0x2d, 0x41, 0x2d, 0x76, 0x32];
/// Chain label of the responder's sending direction: `"chain-B-v2"`.
pub const CHAIN_B: [u8; 10] = [0x63, 0x68, 0x61, 0x69, 0x6e, 0x2d, 0x42, 0x2d, 0x76, 0x32];
/// Chain label of the sending chain after a KEM injection: `"kem-inject-send"`.
pub const INJECT_SEND: [u8; 15] = [
    0x6b, 0x65, 0x6d, 0x2d, 0x69, 0x6e, 0x6a, 0x65, 0x63, 0x74, 0x2d, 0x73, 0x65, 0x6e, 0x64,
];
/// Chain label of the receiving chain after a KEM injection: `"kem-inject-recv"`.
pub const INJECT_RECV: [u8; 15] = [
    0x6b, 0x65, 0x6d, 0x2d, 0x69, 0x6e, 0x6a, 0x65, 0x63, 0x74, 0x2d, 0x72, 0x65, 0x63, 0x76,
];

/// Direction of a chain.
#[derive(Debug, Clone, Copy, PartialEq, Eq, Structural)]
pub enum Direction {
    /// Chain A: initiator → responder.
    Send,
    /// Chain B: responder → initiator.
    Receive,
}

/// The state of a [`RatchetChain`].
#[verifier::ext_equal]
pub struct RatchetChainView {
    /// The current chain key.
    pub chain_key: Seq<u8>,
    /// Messages processed so far.
    pub seq: u64,
    /// Replay keys of the nonces accepted so far.
    pub seen: Set<Seq<char>>,
}

/// The replay key of a message nonce: `"r:"` followed by the hex of the
/// nonce text's UTF-8 bytes.
pub open spec fn nonce_key_spec(nonce: Seq<char>) -> Seq<char> {
    seq!['r', ':'] + hex_encode_spec(encode_utf8(nonce))
}

/// A fresh chain with `chain_key`.
pub open spec fn fresh_chain(chain_key: Seq<u8>) -> RatchetChainView {
    RatchetChainView { chain_key, seq: 0, seen: Set::empty() }
}

/// What decrypting `msg` as `msg_type` on a chain in state `c` returns, and
/// the chain's state afterwards.
pub open spec fn decrypt_step(c: RatchetChainView, msg: EncryptedMessage, msg_type: Seq<char>) -> (
    Result<Seq<u8>, ParamantError>,
    RatchetChainView,
) {
    let key = nonce_key_spec(msg.nonce@);
    if c.seen.contains(key) {
        (Err(ParamantError::ReplayDetected), c)
    } else {
        match decrypt_spec(message_key_spec(c.chain_key), msg, msg_type) {
            Err(e) => (Err(e), c),
            Ok(p) => (
                Ok(p),
                RatchetChainView {
                    chain_key: next_chain_spec(c.chain_key),
                    seq: (c.seq + 1) as u64,
                    seen: c.seen.insert(key),
                },
            ),
        }
    }
}

/// A message accepted by a chain is rejected as a replay when it comes again.
pub proof fn lemma_replay_rejected(c: RatchetChainView, msg: EncryptedMessage, msg_type: Seq<char>)
    requires
        decrypt_step(c, msg, msg_type).0 is Ok,
    ensures
        decrypt_step(decrypt_step(c, msg, msg_type).1, msg, msg_type).0 == Err::<Seq<u8>, ParamantError>(
            ParamantError::ReplayDetected,
        ),
        decrypt_step(decrypt_step(c, msg, msg_type).1, msg, msg_type).1 == decrypt_step(c, msg, msg_type).1,
{
}

/// A ratchet chain: the chain key, the message counter and the replay keys
/// of the nonces accepted.
pub struct RatchetChain {
    chain_key: [u8; 32],
    /// Messages processed so far.
    pub seq: u64,
    /// The replay keys accepted so far, each once. A `Vec` searched in full
    /// rather than vstd's `HashSet`: with `String` keys, vstd's `HashSet`
    /// specifications give nothing usable about membership after `insert`, so
    /// no replay property could be proved through one. The view reads this
    /// list as a set.
    seen_nonces: Vec<String>,
}

impl View for RatchetChain {
    type V = RatchetChainView;

    closed spec fn view(&self) -> RatchetChainView {
        RatchetChainView {
            chain_key: self.chain_key@,
            seq: self.seq,
            seen: Set::new(
                |k: Seq<char>| exists|i: int| 0 <= i < self.seen_nonces@.len() && (#[trigger] self.seen_nonces@[i])@ == k,
            ),
        }
    }
}

/// Whether some entry of `seen` is `key`.
fn seen_contains(seen: &Vec<String>, key: &String) -> (r: bool)
    ensures
        r == exists|i: int| 0 <= i < seen@.len() && (#[trigger] seen@[i])@ == key@,
{
    let mut i: usize = 0;
    while i < seen.len()
        invariant
            i <= seen@.len(),
            forall|j: int| 0 <= j < i ==> (#[trigger] seen@[j])@ != key@,
        decreases seen@.len() - i,
    {
        if seen[i] == *key {
            return true;
        }
        i = i + 1;
    }
    false
}

/// The replay key of a nonce text.
fn nonce_key(nonce: &String) -> (r: String)
    ensures
        r@ == nonce_key_spec(nonce@),
{
    let digits = hex_encode(nonce.as_str().as_bytes());
    let prefix = String::from_str("r:");
    proof {
        reveal_strlit("r:");
        assert(prefix@ =~= seq!['r', ':']);
    }
    prefix.concat(digits.as_str())
}

impl RatchetChain {
    /// Start a chain from the master key with the chain label `label`.
    pub fn new(master: &MasterKey, label: &[u8]) -> (r: Self)
        ensures
            r@ == fresh_chain(chain_key_spec(master.0@, label@)),
    {
        let r = RatchetChain { chain_key: chat_kdf::derive_chain_key(master, label), seq: 0, seen_nonces: Vec::new() };
        assert(r@.seen =~= Set::<Seq<char>>::empty());
        r
    }

    /// Encrypt a message and move the chain one step.
    ///
    /// The message carries the current sequence number and is sealed with the
    /// message key of the current chain key. Errors with
    /// [`ParamantError::Encryption`], leaving the chain unchanged.
    pub fn encrypt(&mut self, plaintext: &[u8], msg_type: &str) -> (r: ParamantResult<EncryptedMessage>)
        requires
            old(self)@.seq < u64::MAX,
        ensures
            r matches Ok(m) ==> {
                &&& m.seq == old(self)@.seq
                &&& sealed_message(m, message_key_spec(old(self)@.chain_key), msg_type@, plaintext@)
                &&& final(self)@ == (RatchetChainView {
                    chain_key: next_chain_spec(old(self)@.chain_key),
                    seq: (old(self)@.seq + 1) as u64,
                    seen: old(self)@.seen,
                })
            },
            r matches Err(e) ==> e is Encryption && final(self)@ == old(self)@,
    {
        let (msg_key, next_chain) = chat_kdf::derive_message_key(&self.chain_key);
        let encrypted = chat_aead::encrypt(&msg_key, plaintext, self.seq, msg_type)?;
        self.chain_key = next_chain;
        self.seq = self.seq + 1;
        Ok(encrypted)
    }

    /// The messages processed so far.
    pub fn seq(&self) -> (r: u64)
        ensures
            r == self@.seq,
    {
        self.seq
    }

    /// [`RatchetChain::decrypt`] for any message: one whose hex nonce is not
    /// 12 bytes long is refused with [`ParamantError::DecryptionFailed`],
    /// leaving the chain unchanged.
    pub fn decrypt_checked(&mut self, msg: &EncryptedMessage, msg_type: &str) -> (r: ParamantResult<Vec<u8>>)
        requires
            old(self)@.seq < u64::MAX,
        ensures
            !nonce_well_sized(*msg) ==> r == Err::<Vec<u8>, ParamantError>(ParamantError::DecryptionFailed)
                && final(self)@ == old(self)@,
            nonce_well_sized(*msg) ==> {
                &&& match decrypt_step(old(self)@, *msg, msg_type@).0 {
                    Ok(p) => r matches Ok(v) && v@ == p,
                    Err(e) => r matches Err(x) && x == e,
                }
                &&& final(self)@ == decrypt_step(old(self)@, *msg, msg_type@).1
            },
    {
        if !chat_aead::nonce_ok(msg) {
            return Err(ParamantError::DecryptionFailed);
        }
        self.decrypt(msg, msg_type)
    }

    /// Decrypt a message and move the chain one step.
    ///
    /// Errors with [`ParamantError::ReplayDetected`] if the message's nonce was
    /// accepted before, and with [`ParamantError::DecryptionFailed`] if it does
    /// not open under the current message key; the chain is then unchanged. A
    /// message sealed by a chain with the same chain key opens to its
    /// plaintext, and both chains then hold the same next chain key.
    pub fn decrypt(&mut self, msg: &EncryptedMessage, msg_type: &str) -> (r: ParamantResult<Vec<u8>>)
        requires
            old(self)@.seq < u64::MAX,
            nonce_well_sized(*msg),
        ensures
            match decrypt_step(old(self)@, *msg, msg_type@).0 {
                Ok(p) => r matches Ok(v) && v@ == p,
                Err(e) => r matches Err(x) && x == e,
            },
            final(self)@ == decrypt_step(old(self)@, *msg, msg_type@).1,
            forall|p: Seq<u8>|
                #[trigger] sealed_message(*msg, message_key_spec(old(self)@.chain_key), msg_type@, p)
                    && !old(self)@.seen.contains(nonce_key_spec(msg.nonce@)) ==> (r matches Ok(v) && v@
                    == p),
    {
        let key = nonce_key(&msg.nonce);
        if seen_contains(&self.seen_nonces, &key) {
            return Err(ParamantError::ReplayDetected);
        }
        let (msg_key, next_chain) = chat_kdf::derive_message_key(&self.chain_key);
        let plaintext = chat_aead::decrypt(&msg_key, msg, msg_type)?;
        let ghost before = self@;
        let ghost old_seen = self.seen_nonces@;
        self.chain_key = next_chain;
        self.seq = self.seq + 1;
        self.seen_nonces.push(key);
        proof {
            let key_v = nonce_key_spec(msg.nonce@);
            let now = self.seen_nonces@;
            assert(now.len() == old_seen.len() + 1);
            assert forall|k: Seq<char>| #[trigger] self@.seen.contains(k) == before.seen.insert(key_v).contains(k) by {
                if before.seen.contains(k) {
                    let i = choose|i: int| 0 <= i < old_seen.len() && (#[trigger] old_seen[i])@ == k;
                    assert(now[i] == old_seen[i]);
                }
                if k == key_v {
                    assert(now[old_seen.len() as int]@ == k);
                }
                if self@.seen.contains(k) {
                    let i = choose|i: int| 0 <= i < now.len() && (#[trigger] now[i])@ == k;
                    if i < old_seen.len() {
                        assert(old_seen[i] == now[i]);
                    }
                }
            }
            assert(self@.seen =~= before.seen.insert(key_v));
        }
        Ok(plaintext)
    }
}

/// The whole ratchet state of a conversation.
pub struct RatchetState {
    /// Our sending chain.
    pub send_chain: RatchetChain,
    /// Our receiving chain.
    pub receive_chain: RatchetChain,
    /// KEM injections so far.
    pub kem_count: u64,
}

impl RatchetState {
    /// The state of the side that connected first: it sends on chain A and
    /// receives on chain B.
    pub fn new_initiator(master: &MasterKey) -> (r: Self)
        ensures
            (r.send_chain@, r.receive_chain@) == initiator_chains(master.0@),
            r.kem_count == 0,
    {
        RatchetState {
            send_chain: RatchetChain::new(master, &CHAIN_A),
            receive_chain: RatchetChain::new(master, &CHAIN_B),
            kem_count: 0,
        }
    }

    /// The state of the responder: the initiator's chains, mirrored (it sends
    /// on chain B and receives on chain A).
    pub fn new_responder(master: &MasterKey) -> (r: Self)
        ensures
            (r.send_chain@, r.receive_chain@) == responder_chains(master.0@),
            r.kem_count == 0,
    {
        RatchetState {
            send_chain: RatchetChain::new(master, &CHAIN_B),
            receive_chain: RatchetChain::new(master, &CHAIN_A),
            kem_count: 0,
        }
    }

    /// Whether a KEM injection is due: a positive multiple of [`KEM_IV`]
    /// messages has been sent.
    pub fn needs_kem_injection(&self) -> (r: bool)
        ensures
            r == (self.send_chain@.seq > 0 && self.send_chain@.seq % KEM_IV == 0),
    {
        self.send_chain.seq > 0 && self.send_chain.seq % KEM_IV == 0
    }

    /// Inject a fresh KEM and ECDH secret: derive a new master key and
    /// restart both chain keys from it; counters and replay keys are kept.
    pub fn inject_kem(&mut self, new_kem_shared: &[u8], new_ecdh_shared: &[u8])
        requires
            old(self).kem_count < u64::MAX,
        ensures
            final(self).send_chain@ == (RatchetChainView {
                chain_key: chain_key_spec(master_spec(new_ecdh_shared@, new_kem_shared@), INJECT_SEND@),
                ..old(self).send_chain@
            }),
            final(self).receive_chain@ == (RatchetChainView {
                chain_key: chain_key_spec(master_spec(new_ecdh_shared@, new_kem_shared@), INJECT_RECV@),
                ..old(self).receive_chain@
            }),
            final(self).kem_count == old(self).kem_count + 1,
    {
        let new_master = chat_kdf::derive_master(new_ecdh_shared, new_kem_shared);
        let new_send_chain = chat_kdf::derive_chain_key(&new_master, &INJECT_SEND);
        let new_recv_chain = chat_kdf::derive_chain_key(&new_master, &INJECT_RECV);
        self.send_chain.chain_key = new_send_chain;
        self.receive_chain.chain_key = new_recv_chain;
        self.kem_count = self.kem_count + 1;
    }
}

/// The (sending, receiving) chains of an initiator with master key `master`.
pub open spec fn initiator_chains(master: Seq<u8>) -> (RatchetChainView, RatchetChainView) {
    (fresh_chain(chain_key_spec(master, CHAIN_A@)), fresh_chain(chain_key_spec(master, CHAIN_B@)))
}

/// The (sending, receiving) chains of a responder with master key `master`.
pub open spec fn responder_chains(master: Seq<u8>) -> (RatchetChainView, RatchetChainView) {
    (fresh_chain(chain_key_spec(master, CHAIN_B@)), fresh_chain(chain_key_spec(master, CHAIN_A@)))
}

/// An initiator and a responder built from the same master key hold mirrored
/// chains: each side's sending chain is the other side's receiving chain.
pub proof fn lemma_chains_mirrored(master: Seq<u8>)
    ensures
        initiator_chains(master).0 == responder_chains(master).1,
        initiator_chains(master).1 == responder_chains(master).0,
{
}

} // verus!
