//! Operating-system randomness for the chat layer (`rand_core::OsRng`).

use rand_core::{OsRng, RngCore};
use vstd::prelude::*;

verus! {

/// `len` bytes from `rand_core::OsRng::try_fill_bytes`, or `None` when the
/// operating system's generator fails. Of the bytes nothing is claimed beyond
/// their number: they are chance.
#[verifier::external_body]
pub(crate) fn os_random(len: usize) -> (r: Option<Vec<u8>>)
    ensures
        r matches Some(v) ==> v@.len() == len,
{
    let mut buf = vec![0u8; len];
    match OsRng.try_fill_bytes(&mut buf) {
        Ok(()) => Some(buf),
        Err(_) => None,
    }
}

} // verus!
