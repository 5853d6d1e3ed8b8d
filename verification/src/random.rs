//! Operating-system randomness (AWS-LC `SystemRandom`).

use aws_lc_rs::rand::SecureRandom;
use vstd::prelude::*;

verus! {

/// `len` bytes from `aws_lc_rs::rand::SystemRandom::fill`, or `None` when
/// the operating system's generator fails. Of the bytes nothing is claimed
/// beyond their number: they are chance.
#[verifier::external_body]
pub(crate) fn system_random(len: usize) -> (r: Option<Vec<u8>>)
    ensures
        r matches Some(v) ==> v@.len() == len,
{
    let mut buf = vec![0u8; len];
    match aws_lc_rs::rand::SystemRandom::new().fill(&mut buf) {
        Ok(()) => Some(buf),
        Err(_) => None,
    }
}

/// 12 random bytes for use as an AES-GCM nonce, or `None` when the system
/// generator fails.
pub fn random_nonce() -> (r: Option<[u8; 12]>)
{
    match system_random(12) {
        Some(v) => Some(
            [v[0], v[1], v[2], v[3], v[4], v[5], v[6], v[7], v[8], v[9], v[10], v[11]],
        ),
        None => None,
    }
}

} // verus!
