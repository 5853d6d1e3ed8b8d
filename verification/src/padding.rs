//! Length-hiding block padding.
//!
//! ```text
//! [ original_data || random_filler || original_length (u32, little-endian) ]
//! ```
//!
//! The padded blob is a whole number of blocks of the chosen scheme, so an
//! observer learns only the block tier, not the exact length.

use vstd::prelude::*;

use crate::bytes::{append_bytes, copy_range, le32, le32_value, lemma_le32_roundtrip, u32_to_le};
use crate::error::{CoreError, CoreResult};
use crate::random::system_random;

verus! {

/// Bytes reserved at the end of every padded blob for the length suffix.
pub const LEN_SUFFIX: usize = 4;

/// A fixed padding block size.
#[derive(Debug, Clone, Copy, PartialEq, Eq, Structural)]
pub enum PaddingScheme {
    /// 4 KiB blocks.
    Block4K,
    /// 64 KiB blocks.
    Block64K,
    /// 512 KiB blocks.
    Block512K,
    /// 5 MiB blocks.
    Block5M,
}

/// The block size of a scheme, in bytes.
pub open spec fn block_size_spec(s: PaddingScheme) -> int {
    match s {
        PaddingScheme::Block4K => 4096,
        PaddingScheme::Block64K => 65536,
        PaddingScheme::Block512K => 524288,
        PaddingScheme::Block5M => 5242880,
    }
}

/// The smallest scheme whose single block holds `len` bytes plus the suffix,
/// or the largest scheme when none does.
pub open spec fn select_spec(len: int) -> PaddingScheme {
    let need = len + 4;
    if need <= 4096 {
        PaddingScheme::Block4K
    } else if need <= 65536 {
        PaddingScheme::Block64K
    } else if need <= 524288 {
        PaddingScheme::Block512K
    } else {
        PaddingScheme::Block5M
    }
}

/// The padded length for a `len`-byte plaintext: `len + 4` rounded up to a
/// whole number of blocks of the selected scheme.
pub open spec fn padded_len(len: int) -> int {
    let bs = block_size_spec(select_spec(len));
    let need = len + 4;
    (if need % bs == 0 { need / bs } else { need / bs + 1 }) * bs
}

/// The padded length is a positive whole number of blocks with room for the data and suffix.
pub proof fn lemma_padded_len(len: int)
    requires
        0 <= len,
    ensures
        padded_len(len) % block_size_spec(select_spec(len)) == 0,
        len + 4 <= padded_len(len) < len + 4 + block_size_spec(select_spec(len)),
{
    let bs = block_size_spec(select_spec(len));
    let need = len + 4;
    let q = if need % bs == 0 { need / bs } else { need / bs + 1 };
    assert(bs > 0);
    assert((q * bs) % bs == 0) by (nonlinear_arith)
        requires
            bs > 0,
    ;
    assert(need == (need / bs) * bs + need % bs) by (nonlinear_arith)
        requires
            bs > 0,
    ;
    assert(0 <= need % bs < bs) by (nonlinear_arith)
        requires
            bs > 0,
    ;
    if need % bs == 0 {
        assert(q * bs == need);
    } else {
        assert(q * bs == (need / bs) * bs + bs) by (nonlinear_arith)
            requires
                q == need / bs + 1,
        ;
    }
}

/// What [`unpad`] returns for `padded` under `scheme`.
pub open spec fn unpad_spec(padded: Seq<u8>, scheme: PaddingScheme) -> Result<Seq<u8>, CoreError> {
    let n = padded.len() as int;
    if n == 0 || n % block_size_spec(scheme) != 0 {
        Err(CoreError::Padding("padded length is not a whole block"))
    } else {
        let len = le32_value(padded.subrange(n - 4, n)) as int;
        if len > n - 4 {
            Err(CoreError::Padding("length suffix exceeds padded data"))
        } else {
            Ok(padded.subrange(0, len))
        }
    }
}

impl PaddingScheme {
    /// Block size in bytes.
    pub fn block_size(&self) -> (r: usize)
        ensures
            r == block_size_spec(*self),
    {
        match self {
            PaddingScheme::Block4K => 4096,
            PaddingScheme::Block64K => 65536,
            PaddingScheme::Block512K => 524288,
            PaddingScheme::Block5M => 5242880,
        }
    }

    /// The smallest scheme whose single block holds `plaintext_len` plus the
    /// length suffix; the largest scheme if it exceeds every single block.
    pub fn select_for(plaintext_len: usize) -> (r: PaddingScheme)
        requires
            plaintext_len + LEN_SUFFIX <= usize::MAX,
        ensures
            r == select_spec(plaintext_len as int),
    {
        let need = plaintext_len + LEN_SUFFIX;
        if need <= PaddingScheme::Block4K.block_size() {
            PaddingScheme::Block4K
        } else if need <= PaddingScheme::Block64K.block_size() {
            PaddingScheme::Block64K
        } else if need <= PaddingScheme::Block512K.block_size() {
            PaddingScheme::Block512K
        } else {
            PaddingScheme::Block5M
        }
    }
}

/// Largest plaintext the little-endian `u32` length suffix can record.
pub fn len_suffix_cap() -> (r: usize)
    ensures
        r == u32::MAX,
{
    0xFFFF_FFFFusize
}

/// Pad `plaintext` to the next block boundary, returning the chosen scheme and
/// the padded bytes (always a whole number of the scheme's blocks).
///
/// Errors with [`CoreError::Padding`] if `plaintext` is longer than the
/// `u32` length suffix can record, or if the system generator fails while
/// drawing the filler.
pub fn pad(plaintext: &[u8]) -> (r: CoreResult<(PaddingScheme, Vec<u8>)>)
    requires
        plaintext@.len() <= u32::MAX ==> padded_len(plaintext@.len() as int) <= usize::MAX,
    ensures
        plaintext@.len() > u32::MAX <==> r == Err::<(PaddingScheme, Vec<u8>), CoreError>(
            CoreError::Padding("plaintext length exceeds u32 suffix range"),
        ),
        r matches Ok((s, out)) ==> padded_as(plaintext@, s, out@) && out@ == plaintext@ + out@.subrange(
            plaintext@.len() as int,
            out@.len() - 4,
        ) + le32(plaintext@.len() as u32),
        r matches Err(e) ==> e == CoreError::Padding("plaintext length exceeds u32 suffix range")
            || e == CoreError::Padding("system RNG failure"),
{
    pad_with_cap(plaintext, len_suffix_cap())
}

/// `out` is `data` padded under `s`: the selected scheme, a whole number of
/// blocks, the data first and its length last.
pub open spec fn padded_as(data: Seq<u8>, s: PaddingScheme, out: Seq<u8>) -> bool {
    let n = out.len() as int;
    &&& s == select_spec(data.len() as int)
    &&& n == padded_len(data.len() as int)
    &&& n % block_size_spec(s) == 0
    &&& out.subrange(0, data.len() as int) == data
    &&& out.subrange(n - 4, n) == le32(data.len() as u32)
}

/// The padded layout of `plaintext` around `filler`: the data, the filler,
/// and the data's length as a little-endian `u32`.
pub fn assemble_padded(plaintext: &[u8], filler: &[u8]) -> (r: Vec<u8>)
    ensures
        r@ == plaintext@ + filler@ + le32(plaintext@.len() as u32),
{
    let mut out: Vec<u8> = Vec::new();
    append_bytes(&mut out, plaintext);
    append_bytes(&mut out, filler);
    append_bytes(&mut out, &u32_to_le(plaintext.len() as u32));
    out
}

/// [`pad`] with an explicit bound `cap` on the plaintext length (`cap` is at
/// most `u32::MAX`, the largest length the suffix can record).
pub fn pad_with_cap(plaintext: &[u8], cap: usize) -> (r: CoreResult<(PaddingScheme, Vec<u8>)>)
    requires
        cap <= u32::MAX,
        plaintext@.len() <= cap ==> padded_len(plaintext@.len() as int) <= usize::MAX,
    ensures
        plaintext@.len() > cap <==> r == Err::<(PaddingScheme, Vec<u8>), CoreError>(
            CoreError::Padding("plaintext length exceeds u32 suffix range"),
        ),
        r matches Ok((s, out)) ==> padded_as(plaintext@, s, out@) && out@ == plaintext@ + out@.subrange(
            plaintext@.len() as int,
            out@.len() - 4,
        ) + le32(plaintext@.len() as u32),
        r matches Err(e) ==> e == CoreError::Padding("plaintext length exceeds u32 suffix range")
            || e == CoreError::Padding("system RNG failure"),
{
    if plaintext.len() > cap {
        return Err(CoreError::Padding("plaintext length exceeds u32 suffix range"));
    }
    let len = plaintext.len();
    proof {
        lemma_padded_len(len as int);
    }
    let scheme = PaddingScheme::select_for(len);
    let bs = scheme.block_size();
    let need = len + LEN_SUFFIX;
    let blocks = if need % bs == 0 { need / bs } else { need / bs + 1 };
    assert(blocks * bs == padded_len(len as int));
    let total = blocks * bs;
    let filler = match system_random(total - LEN_SUFFIX - len) {
        Some(f) => f,
        None => { return Err(CoreError::Padding("system RNG failure")) },
    };
    let out = assemble_padded(plaintext, filler.as_slice());
    assert(out@.subrange(0, len as int) =~= plaintext@);
    assert(out@.subrange(total - 4, total as int) =~= le32(len as u32));
    Ok((scheme, out))
}

/// Recover the original plaintext from a padded blob.
///
/// Errors with [`CoreError::Padding`] if `padded` is empty, not a whole number
/// of the scheme's blocks, or carries a length suffix beyond the data.
pub fn unpad(padded: &[u8], scheme: PaddingScheme) -> (r: CoreResult<Vec<u8>>)
    ensures
        match unpad_spec(padded@, scheme) {
            Ok(p) => r matches Ok(v) && v@ == p,
            Err(e) => r matches Err(x) && x == e,
        },
{
    let bs = scheme.block_size();
    if padded.len() == 0 || padded.len() % bs != 0 {
        return Err(CoreError::Padding("padded length is not a whole block"));
    }
    let n = padded.len();
    let len: usize = ((padded[n - 1] as u32) * 0x100_0000 + (padded[n - 2] as u32) * 0x1_0000
        + (padded[n - 3] as u32) * 256 + (padded[n - 4] as u32)) as usize;
    let ghost suffix = padded@.subrange(n - 4, n as int);
    assert(suffix[0] == padded@[n - 4] && suffix[1] == padded@[n - 3] && suffix[2] == padded@[n - 2]
        && suffix[3] == padded@[n - 1]);
    if len > n - LEN_SUFFIX {
        return Err(CoreError::Padding("length suffix exceeds padded data"));
    }
    Ok(copy_range(padded, 0, len))
}

/// Unpadding what [`pad`] produced gives the plaintext back.
pub proof fn lemma_unpad_inverts_pad(data: Seq<u8>, s: PaddingScheme, out: Seq<u8>)
    requires
        data.len() <= u32::MAX,
        padded_as(data, s, out),
    ensures
        unpad_spec(out, s) == Ok::<Seq<u8>, CoreError>(data),
{
    lemma_padded_len(data.len() as int);
    lemma_le32_roundtrip(data.len() as u32);
}

} // verus!
