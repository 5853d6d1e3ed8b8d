//! Signed, device-paired send (ParaShare): `SIG_ID = 0x0002` (ML-DSA-65).
//!
//! Key encapsulation and AEAD are those of [`super::send`] (single
//! ML-KEM-768, the same HKDF derivation, AES-256-GCM with the PQHB header as
//! AAD), plus an ML-DSA-65 signature over
//!
//! ```text
//! msg = ct_kem || sender_pub || nonce || ciphertext || aad
//! ```
//!
//! where `sender_pub` is the sender's ML-DSA-65 public key and
//! `aad = HEADER(10) || chunk_index_be32`. Signing and verifying are made by
//! the caller over [`signing_message`]; this module frames, seals and opens.

use vstd::prelude::*;

use crate::aead::{self, aes_gcm_seal_spec, decrypt_spec};
use crate::bytes::{append_bytes, to_vec};
use crate::envelope::pad_to_block;
use crate::envelope::send::{derive_key, send_key_spec};
use crate::error::{CoreError, CoreResult};
use crate::kem;
use crate::random::random_nonce;
use crate::sig::ml_dsa_65;
use crate::wire::{
    aad_bytes, decode_prefix_spec, encode_spec, envelope_bytes, lies_at, Envelope, EnvelopeView, Header, KemId,
    SigId,
};

verus! {

/// The header of a ParaShare envelope.
pub open spec fn share_header() -> Header {
    Header { kem_id: KemId::MlKem768, sig_id: SigId::MlDsa65, flags: 0 }
}

/// The signed message of an envelope: `ct_kem || sender_pub || nonce || ciphertext || aad`.
pub open spec fn signing_message_spec(e: EnvelopeView) -> Seq<u8> {
    e.ct_kem + e.sender_pub + e.nonce + e.ciphertext + aad_bytes(e.header, 0)
}

/// `e` is a ParaShare envelope whose ciphertext seals `plaintext` under the
/// key derived from its KEM ciphertext and `shared_secret`.
pub open spec fn sealed_share(e: EnvelopeView, shared_secret: Seq<u8>, plaintext: Seq<u8>) -> bool {
    &&& e.header == share_header()
    &&& e.ct_kem.len() >= 32
    &&& e.nonce.len() == 12
    &&& e.ciphertext == aes_gcm_seal_spec(
        send_key_spec(e.ct_kem, shared_secret),
        e.nonce,
        aad_bytes(e.header, 0),
        plaintext,
    )
    &&& e.ciphertext.len() == plaintext.len() + 16
}

/// What [`signed_parts`] returns: the checks on an envelope before its
/// signature can be verified.
pub open spec fn signed_parts_check(e: EnvelopeView) -> Result<(), CoreError> {
    if !(e.header.sig_id == SigId::MlDsa65 && e.signature is Some) {
        Err(CoreError::Sig("not a ML-DSA-65 ParaShare envelope"))
    } else if e.sender_pub.len() != ml_dsa_65::PUBLIC_KEY_LEN {
        Err(CoreError::Sig("invalid public key length"))
    } else if e.signature.unwrap().len() != ml_dsa_65::SIGNATURE_LEN {
        Err(CoreError::Sig("invalid signature length"))
    } else {
        Ok(())
    }
}

/// What [`open_core`] returns, given what verifying the envelope's signature returned.
pub open spec fn open_core_spec(
    e: EnvelopeView,
    shared_secret: Seq<u8>,
    verdict: Result<bool, CoreError>,
) -> Result<Seq<u8>, CoreError> {
    match signed_parts_check(e) {
        Err(x) => Err(x),
        Ok(()) => match verdict {
            Err(x) => Err(x),
            Ok(false) => Err(CoreError::Sig("signature did not verify against sender_pub")),
            Ok(true) => if e.ct_kem.len() < 32 {
                Err(CoreError::Wire("ct_kem shorter than HKDF salt"))
            } else {
                decrypt_spec(
                    send_key_spec(e.ct_kem, shared_secret),
                    e.nonce,
                    aad_bytes(e.header, 0),
                    e.ciphertext,
                )
            },
        },
    }
}

/// The ML-DSA-65 signed message: `ct_kem || sender_pub || nonce || ciphertext || aad`.
pub fn signing_message(
    ct_kem: &[u8],
    sender_pub: &[u8],
    nonce: &[u8],
    ciphertext: &[u8],
    aad: &[u8],
) -> (r: Vec<u8>)
    ensures
        r@ == ct_kem@ + sender_pub@ + nonce@ + ciphertext@ + aad@,
{
    let mut msg: Vec<u8> = Vec::new();
    append_bytes(&mut msg, ct_kem);
    append_bytes(&mut msg, sender_pub);
    append_bytes(&mut msg, nonce);
    append_bytes(&mut msg, ciphertext);
    append_bytes(&mut msg, aad);
    assert(msg@ =~= ct_kem@ + sender_pub@ + nonce@ + ciphertext@ + aad@);
    msg
}

/// Build the deterministic ParaShare envelope from a known KEM result and a
/// precomputed ML-DSA-65 `signature` over [`signing_message`].
///
/// Errors with [`CoreError::Wire`] when `ct_kem` is shorter than 32 bytes,
/// or [`CoreError::Aead`] when the plaintext is longer than AES-GCM seals
/// (2^36 - 32 bytes); it succeeds on every other input.
pub fn seal_core(
    ct_kem: &[u8],
    shared_secret: &[u8],
    sender_sig_pub: &[u8],
    nonce: &[u8; 12],
    plaintext: &[u8],
    signature: &[u8],
) -> (r: CoreResult<Envelope>)
    ensures
        ct_kem@.len() < 32 ==> r == Err::<Envelope, CoreError>(
            CoreError::Wire("ct_kem shorter than HKDF salt"),
        ),
        r matches Ok(e) ==> {
            &&& e@.ct_kem == ct_kem@
            &&& e@.sender_pub == sender_sig_pub@
            &&& e@.signature == Some(signature@)
            &&& e@.nonce == nonce@
            &&& sealed_share(e@, shared_secret@, plaintext@)
        },
        r matches Err(e) ==> e == CoreError::Wire("ct_kem shorter than HKDF salt") || e
            == CoreError::Aead("encryption failed"),
        ct_kem@.len() >= 32 && plaintext@.len() <= aead::MAX_PLAINTEXT_LEN ==> r is Ok,
        ct_kem@.len() >= 32 && plaintext@.len() > aead::MAX_PLAINTEXT_LEN ==> r
            == Err::<Envelope, CoreError>(CoreError::Aead("encryption failed")),
{
    let key = derive_key(ct_kem, shared_secret)?;
    let mut envelope = Envelope {
        header: Header { kem_id: KemId::MlKem768, sig_id: SigId::MlDsa65, flags: 0x00 },
        ct_kem: to_vec(ct_kem),
        sender_pub: to_vec(sender_sig_pub),
        signature: Some(to_vec(signature)),
        nonce: *nonce,
        ciphertext: Vec::new(),
    };
    let aad = envelope.aad_for_chunk(0);
    envelope.ciphertext = aead::encrypt(&key, nonce, &aad, plaintext)?;
    Ok(envelope)
}

/// The public key, message and signature whose verification decides whether
/// `envelope` opens.
///
/// Errors with [`CoreError::Sig`] if the envelope is not an ML-DSA-65
/// envelope carrying a signature, or the key or signature has the wrong length.
pub fn signed_parts(envelope: &Envelope) -> (r: CoreResult<
    (ml_dsa_65::PublicKey, Vec<u8>, ml_dsa_65::Signature),
>)
    ensures
        match signed_parts_check(envelope@) {
            Err(x) => r matches Err(y) && y == x,
            Ok(()) => r matches Ok((pk, msg, sig)) && pk@ == envelope@.sender_pub && msg@
                == signing_message_spec(envelope@) && sig@ == envelope@.signature.unwrap(),
        },
        r matches Ok((pk, msg, sig)) ==> msg@ == envelope@.ct_kem + envelope@.sender_pub + envelope@.nonce
            + envelope@.ciphertext + aad_bytes(envelope@.header, 0),

{
    let signature = match (envelope.header.sig_id, &envelope.signature) {
        (SigId::MlDsa65, Some(sig)) => sig,
        _ => { return Err(CoreError::Sig("not a ML-DSA-65 ParaShare envelope")) },
    };
    let aad = envelope.aad_for_chunk(0);
    let msg = signing_message(
        envelope.ct_kem.as_slice(),
        envelope.sender_pub.as_slice(),
        &envelope.nonce,
        envelope.ciphertext.as_slice(),
        &aad,
    );
    let pk = ml_dsa_65::PublicKey::from_bytes(envelope.sender_pub.as_slice())?;
    let sig = ml_dsa_65::Signature::from_bytes(signature.as_slice())?;
    Ok((pk, msg, sig))
}

/// Check the envelope, take `verdict` (what ML-DSA-65 verification of
/// [`signed_parts`] returned) and decrypt. Returns the plaintext.
///
/// Like the relay, this enforces only that the signature is valid for the
/// carried sender key; pinning that key is the caller's job.
///
/// Errors with [`CoreError::Sig`] if the envelope is unsigned, malformed or
/// its signature does not verify; [`CoreError::Aead`] if decryption fails.
pub fn open_core(envelope: &Envelope, shared_secret: &[u8], verdict: CoreResult<bool>) -> (r:
    CoreResult<Vec<u8>>)
    ensures
        match open_core_spec(envelope@, shared_secret@, verdict) {
            Ok(p) => r matches Ok(v) && v@ == p,
            Err(e) => r matches Err(x) && x == e,
        },
        forall|p: Seq<u8>|
            #[trigger] sealed_share(envelope@, shared_secret@, p) && signed_parts_check(envelope@)
                is Ok && verdict == Ok::<bool, CoreError>(true) ==> (r matches Ok(v) && v@ == p),
{
    let _parts = signed_parts(envelope)?;
    let verified = verdict?;
    if !verified {
        return Err(CoreError::Sig("signature did not verify against sender_pub"));
    }
    let key = derive_key(envelope.ct_kem.as_slice(), shared_secret)?;
    let aad = envelope.aad_for_chunk(0);
    aead::decrypt(&key, &envelope.nonce, &aad, envelope.ciphertext.as_slice())
}

/// First half of encryption for the holder of the secret key matching a KEM
/// encapsulation (`ct_kem`, `shared_secret`): a fresh nonce, the sealed
/// envelope without its signature, and the message the sender must sign
/// with the key matching `signer_pub`.
pub fn encrypt_unsigned(
    ct_kem: &[u8],
    shared_secret: &[u8],
    signer_pub: &ml_dsa_65::PublicKey,
    plaintext: &[u8],
) -> (r: CoreResult<(Envelope, Vec<u8>)>)
    ensures
        ct_kem@.len() < 32 ==> r is Err,
        r matches Err(e) ==> e == CoreError::Wire("nonce RNG failure") || e == CoreError::Wire(
            "ct_kem shorter than HKDF salt",
        ) || (e == CoreError::Aead("encryption failed") && plaintext@.len() > aead::MAX_PLAINTEXT_LEN),
        r matches Ok((e, msg)) ==> {
            &&& e@.ct_kem == ct_kem@
            &&& e@.sender_pub == signer_pub@
            &&& e@.sender_pub.len() == ml_dsa_65::PUBLIC_KEY_LEN
            &&& e@.signature is None
            &&& sealed_share(e@, shared_secret@, plaintext@)
            &&& msg@ == signing_message_spec(e@)
            &&& msg@ == ct_kem@ + signer_pub@ + e@.nonce + e@.ciphertext + aad_bytes(share_header(), 0)
            &&& e@.ciphertext == aes_gcm_seal_spec(
                send_key_spec(ct_kem@, shared_secret@),
                e@.nonce,
                aad_bytes(share_header(), 0),
                plaintext@,
            )
        },
{
    let nonce = match random_nonce() {
        Some(n) => n,
        None => { return Err(CoreError::Wire("nonce RNG failure")) },
    };
    let key = derive_key(ct_kem, shared_secret)?;
    let mut envelope = Envelope {
        header: Header { kem_id: KemId::MlKem768, sig_id: SigId::MlDsa65, flags: 0x00 },
        ct_kem: to_vec(ct_kem),
        sender_pub: to_vec(signer_pub.as_bytes()),
        signature: None,
        nonce,
        ciphertext: Vec::new(),
    };
    let aad = envelope.aad_for_chunk(0);
    envelope.ciphertext = aead::encrypt(&key, &nonce, &aad, plaintext)?;
    let msg = signing_message(
        envelope.ct_kem.as_slice(),
        envelope.sender_pub.as_slice(),
        &envelope.nonce,
        envelope.ciphertext.as_slice(),
        &aad,
    );
    Ok((envelope, msg))
}

/// Second half of encryption: attach `signature` (over the message from
/// [`encrypt_unsigned`]) and return the wire blob padded with random bytes to
/// exactly `pad_block`.
///
/// Errors with [`CoreError::Wire`] if the encoded core exceeds `pad_block`
/// or the envelope does not encode.
#[verifier::spinoff_prover]
pub fn encrypt_signed(envelope: Envelope, signature: &ml_dsa_65::Signature, pad_block: usize) -> (r:
    CoreResult<Vec<u8>>)
    ensures
        signature@.len() == ml_dsa_65::SIGNATURE_LEN,
        match encode_spec(EnvelopeView { signature: Some(signature@), ..envelope@ }) {
            Err(e) => r == Err::<Vec<u8>, CoreError>(e),
            Ok(b) => if b.len() > pad_block {
                r == Err::<Vec<u8>, CoreError>(CoreError::Wire("encoded core larger than pad_block"))
            } else {
                &&& r matches Ok(blob) ==> blob@.len() == pad_block && lies_at(blob@, 0, b)
                &&& r matches Err(e) ==> e == CoreError::Wire("padding RNG failure")
            },
        },
{
    let ghost before = envelope@;
    let mut envelope = envelope;
    let sig_bytes = signature.as_bytes();
    envelope.signature = Some(to_vec(sig_bytes));
    let ghost ev = envelope@;
    assert(ev == EnvelopeView { signature: Some(signature@), ..before });
    let core = match envelope.encode() {
        Ok(c) => c,
        Err(e) => { return Err(e) },
    };
    let ghost core_view = core@;
    assert(encode_spec(ev) == Ok::<Seq<u8>, CoreError>(core_view));
    let blob = pad_to_block(core, pad_block);
    proof {
        if blob is Ok {
            assert(lies_at(blob->Ok_0@, 0, core_view));
        }
    }
    blob
}

/// Decode a ParaShare wire blob (tolerating trailing padding) and check the
/// length of its KEM ciphertext, returning the envelope and the ciphertext to
/// decapsulate with the recipient's secret key.
pub fn decode_blob(blob: &[u8]) -> (r: CoreResult<(Envelope, kem::Ciphertext)>)
    ensures
        match decode_prefix_spec(blob@) {
            Err(e) => r matches Err(x) && x == e,
            Ok((e, n)) => if e.ct_kem.len() == kem::CIPHERTEXT_LEN {
                r matches Ok((v, c)) && v@ == e && c@ == e.ct_kem
            } else {
                r matches Err(x) && x == CoreError::InvalidLength {
                    expected: kem::CIPHERTEXT_LEN,
                    got: e.ct_kem.len() as usize,
                }
            },
        },
{
    crate::envelope::send::decode_blob(blob)
}

} // verus!
