//! HKDF-SHA256 extract-and-expand (RFC 5869), for high-entropy keying material only.

use ::hkdf::Hkdf;
use sha2::Sha256;
use vstd::prelude::*;

use crate::error::{CoreError, CoreResult};

verus! {

/// Length of the HKDF pseudorandom key and of SHA-256 output, in bytes.
pub const PRK_LEN: usize = 32;
/// The largest HKDF-SHA256 output, `255 * 32` bytes.
pub const MAX_EXPAND_LEN: usize = 8160;

/// HKDF-Extract over SHA-256 with an optional salt (RFC 5869; `None` is `HashLen` zero bytes).
pub uninterp spec fn hkdf_extract_spec(salt: Option<Seq<u8>>, ikm: Seq<u8>) -> Seq<u8>;

/// HKDF-Expand over SHA-256 of `prk` to `len` bytes bound to `info`.
pub uninterp spec fn hkdf_expand_spec(prk: Seq<u8>, info: Seq<u8>, len: nat) -> Seq<u8>;

/// `hkdf::Hkdf::<Sha256>::extract`: the named extract of the arguments.
#[verifier::external_body]
pub(crate) fn hkdf_extract_raw(salt: Option<&[u8]>, ikm: &[u8]) -> (r: [u8; 32])
    ensures
        r@ == hkdf_extract_spec(
            match salt {
                Some(s) => Some(s@),
                None => None,
            },
            ikm@,
        ),
{
    let (prk, _hk) = Hkdf::<Sha256>::extract(salt, ikm);
    prk.into()
}

/// `hkdf::Hkdf::<Sha256>::expand` from a 32-byte PRK: the named expansion of
/// the arguments, `len` bytes long; the crate refuses exactly the lengths
/// above `255 * 32`.
#[verifier::external_body]
pub(crate) fn hkdf_expand_raw(prk: &[u8; 32], info: &[u8], len: usize) -> (r: Option<Vec<u8>>)
    ensures
        r is Some <==> len <= 8160,
        r matches Some(v) ==> v@ == hkdf_expand_spec(prk@, info@, len as nat) && v@.len() == len,
{
    let hk = match Hkdf::<Sha256>::from_prk(prk) {
        Ok(h) => h,
        Err(_) => return None,
    };
    let mut okm = vec![0u8; len];
    match hk.expand(info, &mut okm) {
        Ok(()) => Some(okm),
        Err(_) => None,
    }
}

/// The salt HKDF-Extract uses for `salt`: an empty salt is `None` (RFC 5869 §2.2).
pub open spec fn salt_option(salt: Seq<u8>) -> Option<Seq<u8>> {
    if salt.len() == 0 {
        None
    } else {
        Some(salt)
    }
}

/// HKDF-Extract: derive a 32-byte pseudorandom key from `salt` and `ikm`.
///
/// An empty `salt` is treated as `HashLen` zero bytes, per RFC 5869 §2.2.
pub fn extract(salt: &[u8], ikm: &[u8]) -> (r: [u8; 32])
    ensures
        r@ == hkdf_extract_spec(salt_option(salt@), ikm@),
{
    if salt.len() == 0 {
        hkdf_extract_raw(None, ikm)
    } else {
        hkdf_extract_raw(Some(salt), ikm)
    }
}

/// HKDF-Expand: stretch `prk` to `len` bytes, bound to `info`.
///
/// Errors with [`CoreError::Kdf`] exactly when `len` exceeds `255 * 32 = 8160`.
pub fn expand(prk: &[u8; 32], info: &[u8], len: usize) -> (r: CoreResult<Vec<u8>>)
    ensures
        len <= MAX_EXPAND_LEN ==> (r matches Ok(v) && v@ == hkdf_expand_spec(prk@, info@, len as nat)
            && v@.len() == len),
        len > MAX_EXPAND_LEN ==> r == Err::<Vec<u8>, CoreError>(
            CoreError::Kdf("HKDF expand length too large"),
        ),
{
    match hkdf_expand_raw(prk, info, len) {
        Some(v) => Ok(v),
        None => Err(CoreError::Kdf("HKDF expand length too large")),
    }
}

} // verus!
