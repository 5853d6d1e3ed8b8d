//! Envelope modes: complete encrypt/decrypt flows over the wire codec, the
//! KEM results, AES-256-GCM and HKDF.
//!
//! - [`send`]: anonymous KEM send (`SIG_ID = 0x0000`).
//! - [`para_share`]: signed, device-paired send (ML-DSA-65).
//! - [`para_drop`]: anonymous drop keyed by a BIP-39 mnemonic.

pub mod para_drop;
pub mod para_share;
pub mod send;

use vstd::prelude::*;

use crate::bytes::append_bytes;
use crate::error::{CoreError, CoreResult};
use crate::random::system_random;

verus! {

/// Append random bytes to `core` so the result is exactly `pad_block` long.
///
/// Errors with [`CoreError::Wire`] if `core` is already larger than
/// `pad_block`, or if the system generator fails.
pub fn pad_to_block(core: Vec<u8>, pad_block: usize) -> (r: CoreResult<Vec<u8>>)
    ensures
        core@.len() > pad_block ==> r == Err::<Vec<u8>, CoreError>(
            CoreError::Wire("encoded core larger than pad_block"),
        ),
        r matches Ok(v) ==> v@.len() == pad_block && v@.subrange(0, core@.len() as int) == core@,
        r matches Err(e) ==> e == CoreError::Wire("encoded core larger than pad_block") || e
            == CoreError::Wire("padding RNG failure"),
        core@.len() <= pad_block ==> (r matches Err(e) ==> e == CoreError::Wire("padding RNG failure")),
{
    if core.len() > pad_block {
        return Err(CoreError::Wire("encoded core larger than pad_block"));
    }
    let fill = match system_random(pad_block - core.len()) {
        Some(f) => f,
        None => { return Err(CoreError::Wire("padding RNG failure")) },
    };
    let mut out = core;
    let ghost before = out@;
    append_bytes(&mut out, fill.as_slice());
    assert(out@.subrange(0, before.len() as int) =~= before);
    Ok(out)
}

} // verus!
