//! AES-256-GCM authenticated encryption (via AWS-LC).
//!
//! [`encrypt`] returns `ciphertext ‖ tag` (16-byte GCM tag appended);
//! [`decrypt`] consumes that same layout and verifies the tag before
//! returning plaintext. The 96-bit nonce must be unique per key.

use aws_lc_rs::aead::{Aad, LessSafeKey, Nonce, UnboundKey, AES_256_GCM};
use vstd::prelude::*;

use crate::error::{CoreError, CoreResult};

verus! {

/// AES-256 key length, in bytes.
pub const KEY_LEN: usize = 32;
/// GCM nonce length, in bytes (96 bits).
pub const NONCE_LEN: usize = 12;
/// GCM authentication tag length, in bytes.
pub const TAG_LEN: usize = 16;
/// The longest plaintext AES-GCM seals: 2^36 - 32 bytes.
pub const MAX_PLAINTEXT_LEN: u64 = 0xF_FFFF_FFE0;
/// The longest AAD AES-GCM accepts: 2^61 bytes.
pub const MAX_AAD_LEN: u64 = 0x2000_0000_0000_0000;

/// AES-GCM accepts a plaintext and AAD of these lengths.
pub open spec fn gcm_accepts(plaintext_len: nat, aad_len: nat) -> bool {
    plaintext_len <= MAX_PLAINTEXT_LEN && aad_len <= MAX_AAD_LEN
}

/// The AES-256-GCM sealing of `plaintext` (`ciphertext ‖ tag`) under `key`,
/// `nonce` and `aad`.
pub uninterp spec fn aes_gcm_seal_spec(
    key: Seq<u8>,
    nonce: Seq<u8>,
    aad: Seq<u8>,
    plaintext: Seq<u8>,
) -> Seq<u8>;

/// The AES-256-GCM opening of `ciphertext_and_tag` under `key`, `nonce` and
/// `aad`: the plaintext when the tag verifies, else `None`.
pub uninterp spec fn aes_gcm_open_spec(
    key: Seq<u8>,
    nonce: Seq<u8>,
    aad: Seq<u8>,
    ciphertext_and_tag: Seq<u8>,
) -> Option<Seq<u8>>;

/// `aws_lc_rs::aead::LessSafeKey::seal_in_place_append_tag` with an
/// `AES_256_GCM` key: the named sealing of the arguments, the plaintext's
/// length plus the 16-byte tag. AWS-LC's GCM refuses exactly a plaintext
/// longer than 2^36 - 32 bytes or an AAD longer than 2^61 bytes.
#[verifier::external_body]
fn aws_seal(key: &[u8; 32], nonce: &[u8; 12], aad: &[u8], plaintext: &[u8]) -> (r: Option<
    Vec<u8>,
>)
    ensures
        r is Some <==> gcm_accepts(plaintext@.len(), aad@.len()),
        r matches Some(c) ==> c@ == aes_gcm_seal_spec(key@, nonce@, aad@, plaintext@) && c@.len()
            == plaintext@.len() + 16,
{
    let key = match UnboundKey::new(&AES_256_GCM, key) {
        Ok(k) => LessSafeKey::new(k),
        Err(_) => return None,
    };
    let mut buf = plaintext.to_vec();
    match key.seal_in_place_append_tag(Nonce::assume_unique_for_key(*nonce), Aad::from(aad), &mut buf) {
        Ok(()) => Some(buf),
        Err(_) => None,
    }
}

/// `aws_lc_rs::aead::LessSafeKey::open_in_place` with an `AES_256_GCM` key:
/// the named opening of the arguments, which gives back the plaintext of
/// anything sealed under the same key, nonce and AAD.
#[verifier::external_body]
fn aws_open(key: &[u8; 32], nonce: &[u8; 12], aad: &[u8], ciphertext_and_tag: &[u8]) -> (r:
    Option<Vec<u8>>)
    requires
        ciphertext_and_tag@.len() >= 16,
    ensures
        opt_view(r) == aes_gcm_open_spec(key@, nonce@, aad@, ciphertext_and_tag@),
        forall|p: Seq<u8>|
            ciphertext_and_tag@ == #[trigger] aes_gcm_seal_spec(key@, nonce@, aad@, p) ==> opt_view(
                r,
            ) == Some(p),
{
    let key = match UnboundKey::new(&AES_256_GCM, key) {
        Ok(k) => LessSafeKey::new(k),
        Err(_) => return None,
    };
    let mut buf = ciphertext_and_tag.to_vec();
    match key.open_in_place(Nonce::assume_unique_for_key(*nonce), Aad::from(aad), &mut buf) {
        Ok(p) => Some(p.to_vec()),
        Err(_) => None,
    }
}

/// The view of an optional byte vector.
pub open spec fn opt_view(o: Option<Vec<u8>>) -> Option<Seq<u8>> {
    match o {
        Some(v) => Some(v@),
        None => None,
    }
}

/// What [`decrypt`] returns.
pub open spec fn decrypt_spec(key: Seq<u8>, nonce: Seq<u8>, aad: Seq<u8>, ct: Seq<u8>) -> Result<
    Seq<u8>,
    CoreError,
> {
    if ct.len() < 16 {
        Err(CoreError::Aead("ciphertext shorter than the tag"))
    } else {
        match aes_gcm_open_spec(key, nonce, aad, ct) {
            Some(p) => Ok(p),
            None => Err(CoreError::Aead("decryption failed (bad tag, nonce, key, or aad)")),
        }
    }
}

/// Encrypt `plaintext`, returning `ciphertext ‖ tag`.
///
/// `aad` is authenticated but not encrypted; `nonce` must be unique for `key`.
/// Errors with [`CoreError::Aead`] exactly when the plaintext is longer than
/// 2^36 - 32 bytes or the AAD longer than 2^61 bytes.
pub fn encrypt(key: &[u8; 32], nonce: &[u8; 12], aad: &[u8], plaintext: &[u8]) -> (r: CoreResult<
    Vec<u8>,
>)
    ensures
        r matches Ok(c) ==> c@ == aes_gcm_seal_spec(key@, nonce@, aad@, plaintext@) && c@.len()
            == plaintext@.len() + TAG_LEN,
        r matches Err(e) ==> e == CoreError::Aead("encryption failed"),
        r is Ok <==> gcm_accepts(plaintext@.len(), aad@.len()),
{
    match aws_seal(key, nonce, aad, plaintext) {
        Some(c) => Ok(c),
        None => Err(CoreError::Aead("encryption failed")),
    }
}

/// Decrypt `ciphertext ‖ tag`, verifying the tag, and return the plaintext.
///
/// Errors with [`CoreError::Aead`] if the input is shorter than the tag or
/// the tag does not verify under `key`, `nonce` and `aad`. Whatever
/// [`encrypt`] sealed under the same key, nonce and AAD opens to its plaintext.
pub fn decrypt(key: &[u8; 32], nonce: &[u8; 12], aad: &[u8], ciphertext_and_tag: &[u8]) -> (r:
    CoreResult<Vec<u8>>)
    ensures
        match decrypt_spec(key@, nonce@, aad@, ciphertext_and_tag@) {
            Ok(p) => r matches Ok(v) && v@ == p,
            Err(e) => r matches Err(x) && x == e,
        },
        forall|p: Seq<u8>|
            ciphertext_and_tag@ == #[trigger] aes_gcm_seal_spec(key@, nonce@, aad@, p) && p.len()
                + 16 == ciphertext_and_tag@.len() ==> (r matches Ok(v) && v@ == p),
{
    if ciphertext_and_tag.len() < TAG_LEN {
        return Err(CoreError::Aead("ciphertext shorter than the tag"));
    }
    match aws_open(key, nonce, aad, ciphertext_and_tag) {
        Some(p) => Ok(p),
        None => Err(CoreError::Aead("decryption failed (bad tag, nonce, key, or aad)")),
    }
}

} // verus!
