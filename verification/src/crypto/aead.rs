//! AES-256-GCM message encryption for the chat ratchet (RustCrypto `aes-gcm`).
//!
//! A message carries its random 12-byte nonce and `ciphertext ‖ tag` as
//! lowercase hex, and its sequence number; the AAD binds the sequence number
//! and the message type: `"paramant:{seq}:{msg_type}"`.

use aes_gcm::aead::{Aead, KeyInit, Payload};
use aes_gcm::{Aes256Gcm, Key, Nonce};
use vstd::prelude::*;
use vstd::string::StringExecFns;
use vstd::utf8::encode_utf8;

use crate::aead::opt_view;
use crate::bytes::append_bytes;
use crate::crypto::entropy::os_random;
use crate::encoding::{
    decimal_spec, hex_decode, hex_decode_spec, hex_encode, hex_encode_spec, lemma_hex_roundtrip,
    push_decimal,
};
use crate::error::{ParamantError, ParamantResult};

verus! {

/// Length of the AES-GCM nonce, in bytes.
pub const NONCE_SIZE: usize = 12;

/// `"paramant:"`, the start of every message's AAD.
pub const AAD_PREFIX: [u8; 9] = [0x70, 0x61, 0x72, 0x61, 0x6d, 0x61, 0x6e, 0x74, 0x3a];

/// The largest plaintext (and AAD) AES-GCM accepts: 2^36 bytes.
pub const P_MAX: u64 = 0x10_0000_0000;

/// An encrypted chat message: hex nonce, hex `ciphertext ‖ tag`, sequence number.
pub struct EncryptedMessage {
    /// The 12-byte nonce, lowercase hex.
    pub nonce: String,
    /// `ciphertext ‖ tag`, lowercase hex.
    pub ciphertext: String,
    /// The sender's sequence number, bound into the AAD.
    pub seq: u64,
}

impl Clone for EncryptedMessage {
    fn clone(&self) -> (r: Self)
        ensures
            r.nonce@ == self.nonce@,
            r.ciphertext@ == self.ciphertext@,
            r.seq == self.seq,
    {
        EncryptedMessage { nonce: self.nonce.clone(), ciphertext: self.ciphertext.clone(), seq: self.seq }
    }
}

/// The RustCrypto AES-256-GCM sealing (`ciphertext ‖ tag`) of `plaintext`
/// under `key`, `nonce` and `aad`, or `None` when an input is too long.
pub uninterp spec fn gcm_seal_spec(key: Seq<u8>, nonce: Seq<u8>, aad: Seq<u8>, plaintext: Seq<u8>) -> Option<
    Seq<u8>,
>;

/// The RustCrypto AES-256-GCM opening of `ciphertext_and_tag`, or `None`
/// when the tag does not verify.
pub uninterp spec fn gcm_open_spec(
    key: Seq<u8>,
    nonce: Seq<u8>,
    aad: Seq<u8>,
    ciphertext_and_tag: Seq<u8>,
) -> Option<Seq<u8>>;

/// `Aes256Gcm::encrypt` with a `Payload`: the named sealing, 16 bytes longer
/// than the plaintext; the crate refuses exactly a plaintext or AAD longer
/// than 2^36 bytes.
#[verifier::external_body]
fn gcm_seal(key: &[u8; 32], nonce: &[u8; 12], aad: &[u8], plaintext: &[u8]) -> (r: Option<Vec<u8>>)
    ensures
        opt_view(r) == gcm_seal_spec(key@, nonce@, aad@, plaintext@),
        r is Some <==> (plaintext@.len() <= P_MAX && aad@.len() <= P_MAX),
        r matches Some(c) ==> c@.len() == plaintext@.len() + 16,
{
    let cipher = Aes256Gcm::new(Key::<Aes256Gcm>::from_slice(key));
    cipher.encrypt(Nonce::from_slice(nonce), Payload { msg: plaintext, aad }).ok()
}

/// `Aes256Gcm::decrypt` with a `Payload` and a 12-byte nonce: the named
/// opening, which gives back the plaintext of anything sealed under the same
/// key, nonce and AAD.
#[verifier::external_body]
fn gcm_open(key: &[u8; 32], nonce: &[u8], aad: &[u8], ciphertext_and_tag: &[u8]) -> (r: Option<Vec<u8>>)
    requires
        nonce@.len() == 12,
    ensures
        opt_view(r) == gcm_open_spec(key@, nonce@, aad@, ciphertext_and_tag@),
        forall|p: Seq<u8>|
            #[trigger] gcm_seal_spec(key@, nonce@, aad@, p) == Some(ciphertext_and_tag@) ==> opt_view(r)
                == Some(p),
{
    let cipher = Aes256Gcm::new(Key::<Aes256Gcm>::from_slice(key));
    cipher.decrypt(Nonce::from_slice(nonce), Payload { msg: ciphertext_and_tag, aad }).ok()
}

/// The AAD of a message: `"paramant:{seq}:{msg_type}"` in UTF-8.
pub open spec fn aad_spec(seq: u64, msg_type: Seq<char>) -> Seq<u8> {
    AAD_PREFIX@ + decimal_spec(seq as nat) + seq![0x3au8] + encode_utf8(msg_type)
}

/// `m` seals `plaintext` under `key` for `msg_type`: its hex fields decode to
/// a 12-byte nonce and the sealing of `plaintext` with the message's AAD.
pub open spec fn sealed_message(m: EncryptedMessage, key: Seq<u8>, msg_type: Seq<char>, plaintext: Seq<u8>) -> bool {
    &&& hex_decode_spec(m.nonce@) matches Some(n)
    &&& n.len() == NONCE_SIZE
    &&& hex_decode_spec(m.ciphertext@) matches Some(c)
    &&& gcm_seal_spec(key, n, aad_spec(m.seq, msg_type), plaintext) == Some(c)
}

/// The nonce of `m`, when it is valid hex, is 12 bytes long.
pub open spec fn nonce_well_sized(m: EncryptedMessage) -> bool {
    hex_decode_spec(m.nonce@) matches Some(n) ==> n.len() == NONCE_SIZE
}

/// What [`decrypt`] returns.
pub open spec fn decrypt_spec(key: Seq<u8>, m: EncryptedMessage, msg_type: Seq<char>) -> Result<
    Seq<u8>,
    ParamantError,
> {
    match hex_decode_spec(m.nonce@) {
        None => Err(ParamantError::DecryptionFailed),
        Some(n) => match hex_decode_spec(m.ciphertext@) {
            None => Err(ParamantError::DecryptionFailed),
            Some(c) => match gcm_open_spec(key, n, aad_spec(m.seq, msg_type), c) {
                Some(p) => Ok(p),
                None => Err(ParamantError::DecryptionFailed),
            },
        },
    }
}

/// Build the AAD `"paramant:{seq}:{msg_type}"`.
fn build_aad(seq: u64, msg_type: &str) -> (r: Vec<u8>)
    ensures
        r@ == aad_spec(seq, msg_type@),
        r@ == AAD_PREFIX@ + decimal_spec(seq as nat) + seq![0x3au8] + encode_utf8(msg_type@),
{
    let mut aad: Vec<u8> = Vec::new();
    append_bytes(&mut aad, &AAD_PREFIX);
    push_decimal(&mut aad, seq);
    aad.push(0x3a);
    append_bytes(&mut aad, msg_type.as_bytes());
    aad
}

/// Encrypt `plaintext` under `key` with a fresh random nonce, binding `seq`
/// and `msg_type` as AAD.
///
/// Errors with [`ParamantError::Encryption`] if the system generator fails or
/// the plaintext or AAD is longer than 2^36 bytes.
pub fn encrypt(key: &[u8; 32], plaintext: &[u8], seq: u64, msg_type: &str) -> (r: ParamantResult<
    EncryptedMessage,
>)
    ensures
        r matches Ok(m) ==> m.seq == seq && sealed_message(m, key@, msg_type@, plaintext@),
        r matches Err(e) ==> e is Encryption,
        plaintext@.len() > P_MAX ==> r is Err,
{
    let drawn = match os_random(NONCE_SIZE) {
        Some(n) => n,
        None => { return Err(ParamantError::Encryption(String::from_str("system RNG failure"))) },
    };
    let nonce: [u8; 12] = [
        drawn[0], drawn[1], drawn[2], drawn[3], drawn[4], drawn[5],
        drawn[6], drawn[7], drawn[8], drawn[9], drawn[10], drawn[11],
    ];
    let aad = build_aad(seq, msg_type);
    let ct = match gcm_seal(key, &nonce, aad.as_slice(), plaintext) {
        Some(c) => c,
        None => { return Err(ParamantError::Encryption(String::from_str("AES-GCM encrypt mislukt"))) },
    };
    let nonce_hex = hex_encode(&nonce);
    let ct_hex = hex_encode(ct.as_slice());
    proof {
        lemma_hex_roundtrip(nonce@);
        lemma_hex_roundtrip(ct@);
    }
    Ok(EncryptedMessage { nonce: nonce_hex, ciphertext: ct_hex, seq })
}

/// Decrypt `msg` under `key` for `msg_type`.
///
/// Errors with [`ParamantError::DecryptionFailed`] if a hex field is malformed
/// or the tag does not verify (wrong key, tampered message, other type or
/// sequence number). A message [`encrypt`] sealed under the same key and
/// type opens to its plaintext.
pub fn decrypt(key: &[u8; 32], msg: &EncryptedMessage, msg_type: &str) -> (r: ParamantResult<Vec<u8>>)
    requires
        nonce_well_sized(*msg),
    ensures
        match decrypt_spec(key@, *msg, msg_type@) {
            Ok(p) => r matches Ok(v) && v@ == p,
            Err(e) => r matches Err(x) && x == e,
        },
        forall|p: Seq<u8>|
            #[trigger] sealed_message(*msg, key@, msg_type@, p) ==> (r matches Ok(v) && v@ == p),
{
    let nonce = match hex_decode(msg.nonce.as_str()) {
        Some(n) => n,
        None => { return Err(ParamantError::DecryptionFailed) },
    };
    let ct = match hex_decode(msg.ciphertext.as_str()) {
        Some(c) => c,
        None => { return Err(ParamantError::DecryptionFailed) },
    };
    let aad = build_aad(msg.seq, msg_type);
    match gcm_open(key, nonce.as_slice(), aad.as_slice(), ct.as_slice()) {
        Some(p) => Ok(p),
        None => Err(ParamantError::DecryptionFailed),
    }
}

/// Whether the nonce of `msg`, when it is valid hex, is 12 bytes long: the
/// condition [`decrypt`] needs.
pub fn nonce_ok(msg: &EncryptedMessage) -> (r: bool)
    ensures
        r == nonce_well_sized(*msg),
{
    match hex_decode(msg.nonce.as_str()) {
        Some(n) => n.len() == NONCE_SIZE,
        None => true,
    }
}

/// [`decrypt`] for any message: one whose hex nonce is not 12 bytes long is
/// refused with [`ParamantError::DecryptionFailed`].
pub fn decrypt_checked(key: &[u8; 32], msg: &EncryptedMessage, msg_type: &str) -> (r: ParamantResult<Vec<u8>>)
    ensures
        !nonce_well_sized(*msg) ==> r == Err::<Vec<u8>, ParamantError>(ParamantError::DecryptionFailed),
        nonce_well_sized(*msg) ==> match decrypt_spec(key@, *msg, msg_type@) {
            Ok(p) => r matches Ok(v) && v@ == p,
            Err(e) => r matches Err(x) && x == e,
        },
        forall|p: Seq<u8>|
            #[trigger] sealed_message(*msg, key@, msg_type@, p) ==> (r matches Ok(v) && v@ == p),
{
    if !nonce_ok(msg) {
        return Err(ParamantError::DecryptionFailed);
    }
    decrypt(key, msg, msg_type)
}

} // verus!
