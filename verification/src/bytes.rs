//! Fixed-width integer encodings and byte-buffer helpers.

use vstd::prelude::*;

verus! {

/// Big-endian encoding of a `u16`.
pub open spec fn be16(x: u16) -> Seq<u8> {
    seq![(x / 256) as u8, (x % 256) as u8]
}

/// Big-endian encoding of a `u32`.
pub open spec fn be32(x: u32) -> Seq<u8> {
    seq![
        (x / 0x100_0000) as u8,
        ((x / 0x1_0000) % 256) as u8,
        ((x / 256) % 256) as u8,
        (x % 256) as u8,
    ]
}

/// Little-endian encoding of a `u32`.
pub open spec fn le32(x: u32) -> Seq<u8> {
    seq![
        (x % 256) as u8,
        ((x / 256) % 256) as u8,
        ((x / 0x1_0000) % 256) as u8,
        (x / 0x100_0000) as u8,
    ]
}

/// Big-endian encoding of a `u64`.
pub open spec fn be64(x: u64) -> Seq<u8> {
    be32((x / 0x1_0000_0000) as u32) + be32((x % 0x1_0000_0000) as u32)
}

/// The value of two bytes read big-endian.
pub open spec fn be16_value(b0: u8, b1: u8) -> u16 {
    (b0 * 256 + b1) as u16
}

/// The value of four bytes read big-endian.
pub open spec fn be32_value(s: Seq<u8>) -> u32 {
    (s[0] * 0x100_0000 + s[1] * 0x1_0000 + s[2] * 256 + s[3]) as u32
}

/// The value of four bytes read little-endian.
pub open spec fn le32_value(s: Seq<u8>) -> u32 {
    (s[3] * 0x100_0000 + s[2] * 0x1_0000 + s[1] * 256 + s[0]) as u32
}

/// Reading back a big-endian `u16` gives the value written.
pub proof fn lemma_be16_roundtrip(x: u16)
    ensures
        be16(x).len() == 2,
        be16_value(be16(x)[0], be16(x)[1]) == x,
{
}

/// Reading back a big-endian `u32` gives the value written.
pub proof fn lemma_be32_roundtrip(x: u32)
    ensures
        be32(x).len() == 4,
        be32_value(be32(x)) == x,
{
}

/// Writing back the value of two big-endian bytes gives the bytes.
pub proof fn lemma_be16_value_roundtrip(b0: u8, b1: u8)
    ensures
        be16(be16_value(b0, b1)) == seq![b0, b1],
{
    let v: int = b0 * 256 + b1;
    assert(0 <= v < 0x1_0000) by (nonlinear_arith)
        requires
            v == b0 * 256 + b1,
            b0 < 256,
            b1 < 256,
    ;
    assert(v / 256 == b0 && v % 256 == b1) by (nonlinear_arith)
        requires
            v == b0 * 256 + b1,
            b1 < 256,
    ;
    assert(be16(be16_value(b0, b1)) =~= seq![b0, b1]);
}

/// Writing back the value of four big-endian bytes gives the bytes.
pub proof fn lemma_be32_value_roundtrip(s: Seq<u8>)
    requires
        s.len() == 4,
    ensures
        be32(be32_value(s)) == s,
{
    let (a, b, c, d) = (s[0], s[1], s[2], s[3]);
    let v: int = a * 0x100_0000 + b * 0x1_0000 + c * 256 + d;
    assert(0 <= v < 0x1_0000_0000) by (nonlinear_arith)
        requires
            v == a * 0x100_0000 + b * 0x1_0000 + c * 256 + d,
            a < 256,
            b < 256,
            c < 256,
            d < 256,
    ;
    assert(v / 0x100_0000 == a) by (nonlinear_arith)
        requires
            v == a * 0x100_0000 + b * 0x1_0000 + c * 256 + d,
            b < 256,
            c < 256,
            d < 256,
    ;
    assert((v / 0x1_0000) % 256 == b) by (nonlinear_arith)
        requires
            v == a * 0x100_0000 + b * 0x1_0000 + c * 256 + d,
            b < 256,
            c < 256,
            d < 256,
    ;
    assert((v / 256) % 256 == c) by (nonlinear_arith)
        requires
            v == a * 0x100_0000 + b * 0x1_0000 + c * 256 + d,
            b < 256,
            c < 256,
            d < 256,
    ;
    assert(v % 256 == d) by (nonlinear_arith)
        requires
            v == a * 0x100_0000 + b * 0x1_0000 + c * 256 + d,
            c < 256,
            d < 256,
    ;
    assert(be32(be32_value(s)) =~= s);
}

/// Reading back a little-endian `u32` gives the value written.
pub proof fn lemma_le32_roundtrip(x: u32)
    ensures
        le32(x).len() == 4,
        le32_value(le32(x)) == x,
{
}

/// The big-endian `u32` in the four bytes of `buf` at `at`.
pub fn read_be32(buf: &[u8], at: usize) -> (r: u32)
    requires
        at + 4 <= buf@.len(),
    ensures
        r == be32_value(buf@.subrange(at as int, at + 4)),
{
    let v: u32 = (buf[at] as u32) * 0x100_0000 + (buf[at + 1] as u32) * 0x1_0000 + (buf[at + 2] as u32) * 256
        + (buf[at + 3] as u32);
    let ghost b = buf@.subrange(at as int, at + 4);
    assert(b[0] == buf@[at as int] && b[1] == buf@[at + 1] && b[2] == buf@[at + 2] && b[3] == buf@[at + 3]);
    v
}

/// Big-endian bytes of a `u16`.
pub fn u16_to_be(x: u16) -> (r: [u8; 2])
    ensures
        r@ == be16(x),
{
    let r = [(x / 256) as u8, (x % 256) as u8];
    assert(r@ =~= be16(x));
    r
}

/// Big-endian bytes of a `u32`.
pub fn u32_to_be(x: u32) -> (r: [u8; 4])
    ensures
        r@ == be32(x),
{
    let r = [(x / 0x100_0000) as u8, ((x / 0x1_0000) % 256) as u8, ((x / 256) % 256) as u8, (x % 256) as u8];
    assert(r@ =~= be32(x));
    r
}

/// Little-endian bytes of a `u32`.
pub fn u32_to_le(x: u32) -> (r: [u8; 4])
    ensures
        r@ == le32(x),
{
    let r = [(x % 256) as u8, ((x / 256) % 256) as u8, ((x / 0x1_0000) % 256) as u8, (x / 0x100_0000) as u8];
    assert(r@ =~= le32(x));
    r
}

/// Big-endian bytes of a `u64`.
pub fn u64_to_be(x: u64) -> (r: [u8; 8])
    ensures
        r@ == be64(x),
{
    let hi = u32_to_be((x / 0x1_0000_0000) as u32);
    let lo = u32_to_be((x % 0x1_0000_0000) as u32);
    let r = [hi[0], hi[1], hi[2], hi[3], lo[0], lo[1], lo[2], lo[3]];
    assert(r@ =~= be64(x));
    r
}

/// Append every byte of `src` to `out`.
pub fn append_bytes(out: &mut Vec<u8>, src: &[u8])
    ensures
        final(out)@ == old(out)@ + src@,
{
    let mut i: usize = 0;
    while i < src.len()
        invariant
            i <= src@.len(),
            out@ == old(out)@ + src@.subrange(0, i as int),
        decreases src@.len() - i,
    {
        out.push(src[i]);
        i = i + 1;
        assert(out@ =~= old(out)@ + src@.subrange(0, i as int));
    }
    assert(src@.subrange(0, src@.len() as int) =~= src@);
}

/// A fresh vector holding the bytes `src[start..end]`.
pub fn copy_range(src: &[u8], start: usize, end: usize) -> (r: Vec<u8>)
    requires
        start <= end <= src@.len(),
    ensures
        r@ == src@.subrange(start as int, end as int),
{
    let mut r: Vec<u8> = Vec::new();
    let mut i: usize = start;
    while i < end
        invariant
            start <= i <= end,
            end <= src@.len(),
            r@ == src@.subrange(start as int, i as int),
        decreases end - i,
    {
        r.push(src[i]);
        i = i + 1;
        assert(r@ =~= src@.subrange(start as int, i as int));
    }
    r
}

/// A fresh vector holding all of `src`.
pub fn to_vec(src: &[u8]) -> (r: Vec<u8>)
    ensures
        r@ == src@,
{
    let r = copy_range(src, 0, src.len());
    assert(src@.subrange(0, src@.len() as int) =~= src@);
    r
}

/// The 32 bytes of `src` as an array.
pub fn to_array32(src: &[u8]) -> (r: [u8; 32])
    requires
        src@.len() == 32,
    ensures
        r@ == src@,
{
    let mut a = [0u8; 32];
    let mut i: usize = 0;
    while i < 32
        invariant
            i <= 32,
            src@.len() == 32,
            forall|j: int| 0 <= j < i ==> a@[j] == src@[j],
        decreases 32 - i,
    {
        a[i] = src[i];
        i = i + 1;
    }
    assert(a@ =~= src@);
    a
}

/// Byte-wise equality of two slices.
pub fn bytes_eq(a: &[u8], b: &[u8]) -> (r: bool)
    ensures
        r == (a@ == b@),
{
    if a.len() != b.len() {
        return false;
    }
    let mut i: usize = 0;
    while i < a.len()
        invariant
            i <= a@.len(),
            a@.len() == b@.len(),
            forall|j: int| 0 <= j < i ==> a@[j] == b@[j],
        decreases a@.len() - i,
    {
        if a[i] != b[i] {
            return false;
        }
        i = i + 1;
    }
    assert(a@ =~= b@);
    true
}

} // verus!
