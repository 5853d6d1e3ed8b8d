//! Anonymous Send-mode envelope (`SIG_ID = 0x0000`).
//!
//! A sender encapsulates to the recipient's ML-KEM-768 public key, derives an
//! AES-256-GCM key from the KEM shared secret, and encrypts the plaintext with
//! the 10-byte PQHB header (and chunk index 0) bound as AAD:
//!
//! ```text
//! aes_key = HKDF-SHA256(ikm = shared_secret, salt = ct_kem[0..32],
//!                       info = "paramant-v1-aes-key", len = 32)
//! ```
//!
//! The on-wire blob is the encoded envelope followed by random padding up to
//! a caller-chosen block size; [`crate::wire::Envelope::decode_prefix`]
//! recovers the boundary.

use vstd::prelude::*;
use vstd::slice::slice_subrange;

use crate::aead::{self, aes_gcm_seal_spec, decrypt_spec};
use crate::bytes::{to_array32, to_vec};
use crate::envelope::pad_to_block;
use crate::error::{CoreError, CoreResult};
use crate::kdf::hkdf::{self, hkdf_expand_spec, hkdf_extract_spec};
use crate::kem;
use crate::random::random_nonce;
use crate::wire::{
    aad_bytes, encode_spec, envelope_bytes, lies_at, decode_prefix_spec, Envelope, EnvelopeView, Header, KemId,
    SigId,
};

verus! {

/// HKDF `info` string: `"paramant-v1-aes-key"`.
pub const HKDF_INFO: [u8; 19] = [
    0x70, 0x61, 0x72, 0x61, 0x6d, 0x61, 0x6e, 0x74, 0x2d, 0x76, 0x31, 0x2d, 0x61, 0x65, 0x73, 0x2d,
    0x6b, 0x65, 0x79,
];

/// HKDF salt length: the first 32 bytes of the KEM ciphertext.
pub const SALT_LEN: usize = 32;

/// The AES-256-GCM key derived from a KEM ciphertext and shared secret.
pub open spec fn send_key_spec(ct_kem: Seq<u8>, shared_secret: Seq<u8>) -> Seq<u8> {
    hkdf_expand_spec(
        hkdf_extract_spec(Some(ct_kem.subrange(0, 32)), shared_secret),
        HKDF_INFO@,
        32,
    )
}

/// The length of the encoded core of an anonymous envelope: header, the
/// length-prefixed KEM ciphertext and sender key, nonce, and the prefixed
/// ciphertext (the plaintext and its 16-byte tag).
pub open spec fn send_core_len(ct_kem_len: nat, sender_len: nat, plaintext_len: nat) -> nat {
    10 + (4 + ct_kem_len) + (4 + sender_len) + 12 + (4 + plaintext_len + 16)
}

/// The header of an anonymous envelope under `kem_id`.
pub open spec fn send_header(kem_id: KemId) -> Header {
    Header { kem_id, sig_id: SigId::NoSignature, flags: 0 }
}

/// `e` is an anonymous envelope whose ciphertext seals `plaintext` under the
/// key derived from its KEM ciphertext and `shared_secret`, with its header as AAD.
pub open spec fn sealed_send(e: EnvelopeView, shared_secret: Seq<u8>, plaintext: Seq<u8>) -> bool {
    &&& e.header.sig_id == SigId::NoSignature
    &&& e.header.flags == 0
    &&& e.signature is None
    &&& e.ct_kem.len() >= 32
    &&& e.nonce.len() == 12
    &&& e.ciphertext == aes_gcm_seal_spec(
        send_key_spec(e.ct_kem, shared_secret),
        e.nonce,
        aad_bytes(e.header, 0),
        plaintext,
    )
    &&& e.ciphertext.len() == plaintext.len() + 16
}

/// What [`open_core`] returns.
pub open spec fn open_core_spec(e: EnvelopeView, shared_secret: Seq<u8>) -> Result<
    Seq<u8>,
    CoreError,
> {
    if e.header.sig_id != SigId::NoSignature {
        Err(CoreError::Wire("not an anonymous Send envelope"))
    } else if e.ct_kem.len() < 32 {
        Err(CoreError::Wire("ct_kem shorter than HKDF salt"))
    } else {
        decrypt_spec(send_key_spec(e.ct_kem, shared_secret), e.nonce, aad_bytes(e.header, 0), e.ciphertext)
    }
}

/// Derive the AES-256-GCM key from the KEM shared secret and ciphertext.
///
/// `salt = ct_kem[0..32]`, `ikm = shared_secret`, `info = "paramant-v1-aes-key"`.
/// Errors with [`CoreError::Wire`] exactly when `ct_kem` is shorter than 32 bytes.
pub fn derive_key(ct_kem: &[u8], shared_secret: &[u8]) -> (r: CoreResult<[u8; 32]>)
    ensures
        ct_kem@.len() < SALT_LEN ==> r == Err::<[u8; 32], CoreError>(
            CoreError::Wire("ct_kem shorter than HKDF salt"),
        ),
        ct_kem@.len() >= SALT_LEN ==> (r matches Ok(k) && k@ == send_key_spec(ct_kem@, shared_secret@)),
        r matches Ok(k) ==> k@ == hkdf_expand_spec(
            hkdf_extract_spec(Some(ct_kem@.subrange(0, 32)), shared_secret@),
            HKDF_INFO@,
            32,
        ),
{
    if ct_kem.len() < SALT_LEN {
        return Err(CoreError::Wire("ct_kem shorter than HKDF salt"));
    }
    let prk = hkdf::extract(slice_subrange(ct_kem, 0, SALT_LEN), shared_secret);
    let okm = hkdf::expand(&prk, &HKDF_INFO, 32)?;
    Ok(to_array32(okm.as_slice()))
}

/// Build the deterministic Send-mode envelope from a known KEM result.
///
/// Errors with [`CoreError::Wire`] when `ct_kem` is shorter than 32 bytes,
/// or [`CoreError::Aead`] when the plaintext is longer than AES-GCM seals
/// (2^36 - 32 bytes); it succeeds on every other input.
pub fn seal_core(
    kem_id: KemId,
    ct_kem: &[u8],
    shared_secret: &[u8],
    sender_pub: &[u8],
    nonce: &[u8; 12],
    plaintext: &[u8],
) -> (r: CoreResult<Envelope>)
    ensures
        ct_kem@.len() < SALT_LEN ==> r == Err::<Envelope, CoreError>(
            CoreError::Wire("ct_kem shorter than HKDF salt"),
        ),
        r matches Ok(e) ==> {
            &&& e@.header == send_header(kem_id)
            &&& e@.ct_kem == ct_kem@
            &&& e@.sender_pub == sender_pub@
            &&& e@.nonce == nonce@
            &&& sealed_send(e@, shared_secret@, plaintext@)
        },
        r matches Err(e) ==> e == CoreError::Wire("ct_kem shorter than HKDF salt") || e
            == CoreError::Aead("encryption failed"),
        ct_kem@.len() >= SALT_LEN && plaintext@.len() <= aead::MAX_PLAINTEXT_LEN ==> r is Ok,
        ct_kem@.len() >= SALT_LEN && plaintext@.len() > aead::MAX_PLAINTEXT_LEN ==> r
            == Err::<Envelope, CoreError>(CoreError::Aead("encryption failed")),
{
    let key = derive_key(ct_kem, shared_secret)?;
    let mut envelope = Envelope {
        header: Header { kem_id, sig_id: SigId::NoSignature, flags: 0x00 },
        ct_kem: to_vec(ct_kem),
        sender_pub: to_vec(sender_pub),
        signature: None,
        nonce: *nonce,
        ciphertext: Vec::new(),
    };
    let aad = envelope.aad_for_chunk(0);
    envelope.ciphertext = aead::encrypt(&key, nonce, &aad, plaintext)?;
    Ok(envelope)
}

/// Recover the plaintext from a Send-mode envelope given the KEM shared secret.
///
/// Errors with [`CoreError::Wire`] for a signed envelope or a short KEM
/// ciphertext, and with [`CoreError::Aead`] when the ciphertext does not
/// authenticate. An envelope sealed by [`seal_core`] with the same shared
/// secret opens to its plaintext.
pub fn open_core(envelope: &Envelope, shared_secret: &[u8]) -> (r: CoreResult<Vec<u8>>)
    ensures
        match open_core_spec(envelope@, shared_secret@) {
            Ok(p) => r matches Ok(v) && v@ == p,
            Err(e) => r matches Err(x) && x == e,
        },
        forall|p: Seq<u8>|
            #[trigger] sealed_send(envelope@, shared_secret@, p) ==> (r matches Ok(v) && v@ == p),
{
    if !envelope.header.sig_id.is_none() {
        return Err(CoreError::Wire("not an anonymous Send envelope"));
    }
    let key = derive_key(envelope.ct_kem.as_slice(), shared_secret)?;
    let aad = envelope.aad_for_chunk(0);
    aead::decrypt(&key, &envelope.nonce, &aad, envelope.ciphertext.as_slice())
}

/// Encrypt `plaintext` for the holder of the secret key matching a KEM
/// encapsulation (`ct_kem`, `shared_secret`), and return the wire blob padded
/// with random bytes to exactly `pad_block`. `sender_pub` is an opaque stable
/// identifier of the sender.
///
/// Errors with [`CoreError::Wire`] if the encoded core exceeds `pad_block`
/// (or `ct_kem` is shorter than 32 bytes, or the generator fails), and with
/// [`CoreError::Aead`] if the encryption fails.
pub fn encrypt_encapsulated(
    ct_kem: &[u8],
    shared_secret: &[u8],
    sender_pub: &[u8],
    plaintext: &[u8],
    pad_block: usize,
) -> (r: CoreResult<Vec<u8>>)
    ensures
        r matches Ok(blob) ==> blob@.len() == pad_block && exists|e: EnvelopeView|
            {
                &&& e.header == send_header(KemId::MlKem768)
                &&& e.ct_kem == ct_kem@
                &&& e.sender_pub == sender_pub@
                &&& sealed_send(e, shared_secret@, plaintext@)
                &&& #[trigger] lies_at(blob@, 0, envelope_bytes(e))
            },
        ct_kem@.len() < SALT_LEN ==> r is Err,
        send_core_len(ct_kem@.len(), sender_pub@.len(), plaintext@.len()) > pad_block ==> r is Err,
        r matches Err(e) ==> e == CoreError::Wire("nonce RNG failure") || e == CoreError::Wire(
            "ct_kem shorter than HKDF salt",
        ) || (e == CoreError::Aead("encryption failed") && plaintext@.len() > aead::MAX_PLAINTEXT_LEN) || e == CoreError::Wire(
            "encoded core larger than pad_block",
        ) || e == CoreError::Wire("padding RNG failure"),
{
    let nonce = match random_nonce() {
        Some(n) => n,
        None => { return Err(CoreError::Wire("nonce RNG failure")) },
    };
    let envelope = seal_core(KemId::MlKem768, ct_kem, shared_secret, sender_pub, &nonce, plaintext)?;
    proof {
        let ev = envelope@;
        assert(encode_spec(ev) == Ok::<Seq<u8>, CoreError>(envelope_bytes(ev)));
        assert(envelope_bytes(ev).len() == send_core_len(ct_kem@.len(), sender_pub@.len(), plaintext@.len()));
    }
    let core = envelope.encode()?;
    let ghost ev = envelope@;
    let ghost core_view = core@;
    let blob = pad_to_block(core, pad_block)?;
    assert(lies_at(blob@, 0, envelope_bytes(ev)));
    Ok(blob)
}

/// Decode a Send-mode wire blob (tolerating trailing padding) and check the
/// length of its KEM ciphertext, returning the envelope and the ciphertext to
/// decapsulate with the recipient's secret key.
pub fn decode_blob(blob: &[u8]) -> (r: CoreResult<(Envelope, kem::Ciphertext)>)
    ensures
        match decode_prefix_spec(blob@) {
            Err(e) => r matches Err(x) && x == e,
            Ok((e, n)) => if e.ct_kem.len() == kem::CIPHERTEXT_LEN {
                r matches Ok((v, c)) && v@ == e && c@ == e.ct_kem
            } else {
                r matches Err(x) && x == CoreError::InvalidLength {
                    expected: kem::CIPHERTEXT_LEN,
                    got: e.ct_kem.len() as usize,
                }
            },
        },
{
    let (envelope, _consumed) = Envelope::decode_prefix(blob)?;
    let ct = kem::Ciphertext::from_bytes(envelope.ct_kem.as_slice())?;
    Ok((envelope, ct))
}

} // verus!
