//! Wire format v1: the `PQHB` envelope codec.
//!
//! Layout (all integers big-endian, no inter-field padding):
//!
//! ```text
//! HEADER (10 bytes)  MAGIC "PQHB" | VERSION 0x01 | KEM_ID u16 | SIG_ID u16 | FLAGS u8
//! BODY               CT_KEM_LEN u32 | CT_KEM | SENDER_PUB_LEN u32 | SENDER_PUB
//!                    [if SIG_ID != 0]  SIG_LEN u32 | SIGNATURE
//!                    NONCE (12 bytes, no prefix) | CT_LEN u32 | CIPHERTEXT
//! ```
//!
//! The AEAD AAD for chunk `i` is `HEADER (10) || chunk_index_be32 (4)`.

use vstd::prelude::*;

use crate::bytes::{
    append_bytes, be16, be16_value, be32, be32_value, copy_range, lemma_be16_roundtrip,
    lemma_be16_value_roundtrip, lemma_be32_roundtrip, lemma_be32_value_roundtrip, u16_to_be,
    u32_to_be,
};
use crate::error::{CoreError, CoreResult};

verus! {

/// Magic bytes that prefix every v1 envelope: ASCII `PQHB`.
pub const WIRE_MAGIC: [u8; 4] = [0x50, 0x51, 0x48, 0x42];
/// Wire format version byte for v1.
pub const WIRE_VERSION_V1: u8 = 0x01;
/// Fixed header size in bytes (magic + version + kem_id + sig_id + flags).
pub const HEADER_FIXED_SIZE: usize = 10;
/// AES-256-GCM nonce size in bytes (carried with no length prefix).
pub const NONCE_SIZE: usize = 12;

/// KEM algorithm identifier (uint16).
#[derive(Debug, Clone, Copy, PartialEq, Eq, Structural)]
pub enum KemId {
    /// ML-KEM-512 (0x0001).
    MlKem512,
    /// ML-KEM-768 (0x0002), the default.
    MlKem768,
    /// ML-KEM-1024 (0x0003).
    MlKem1024,
}

/// Signature algorithm identifier (uint16); `None` (0x0000) marks an anonymous
/// envelope whose signature section is absent.
#[derive(Debug, Clone, Copy, PartialEq, Eq, Structural)]
pub enum SigId {
    /// No signature (0x0000).
    NoSignature,
    /// ML-DSA-44 (0x0001).
    MlDsa44,
    /// ML-DSA-65 (0x0002), the default.
    MlDsa65,
    /// ML-DSA-87 (0x0003).
    MlDsa87,
    /// Falcon-512 (0x0100).
    Falcon512,
    /// Falcon-1024 (0x0101).
    Falcon1024,
    /// SLH-DSA-SHA2-128s (0x0200).
    SlhDsaSha2_128s,
    /// SLH-DSA-SHA2-128f (0x0201).
    SlhDsaSha2_128f,
    /// SLH-DSA-SHA2-192s (0x0202).
    SlhDsaSha2_192s,
    /// SLH-DSA-SHA2-192f (0x0203).
    SlhDsaSha2_192f,
    /// SLH-DSA-SHA2-256s (0x0204).
    SlhDsaSha2_256s,
    /// SLH-DSA-SHA2-256f (0x0205).
    SlhDsaSha2_256f,
    /// SLH-DSA-SHAKE-128s (0x0206).
    SlhDsaShake128s,
    /// SLH-DSA-SHAKE-128f (0x0207).
    SlhDsaShake128f,
    /// SLH-DSA-SHAKE-192s (0x0208).
    SlhDsaShake192s,
    /// SLH-DSA-SHAKE-192f (0x0209).
    SlhDsaShake192f,
    /// SLH-DSA-SHAKE-256s (0x020A).
    SlhDsaShake256s,
    /// SLH-DSA-SHAKE-256f (0x020B).
    SlhDsaShake256f,
}

/// The wire code of a KEM identifier.
pub open spec fn kem_code(k: KemId) -> u16 {
    match k {
        KemId::MlKem512 => 0x0001,
        KemId::MlKem768 => 0x0002,
        KemId::MlKem1024 => 0x0003,
    }
}

/// The KEM identifier registered under a wire code, if any.
pub open spec fn kem_of_code(id: u16) -> Option<KemId> {
    if id == 0x0001 {
        Some(KemId::MlKem512)
    } else if id == 0x0002 {
        Some(KemId::MlKem768)
    } else if id == 0x0003 {
        Some(KemId::MlKem1024)
    } else {
        None
    }
}

/// The wire code of a signature identifier.
pub open spec fn sig_code(s: SigId) -> u16 {
    match s {
        SigId::NoSignature => 0x0000,
        SigId::MlDsa44 => 0x0001,
        SigId::MlDsa65 => 0x0002,
        SigId::MlDsa87 => 0x0003,
        SigId::Falcon512 => 0x0100,
        SigId::Falcon1024 => 0x0101,
        SigId::SlhDsaSha2_128s => 0x0200,
        SigId::SlhDsaSha2_128f => 0x0201,
        SigId::SlhDsaSha2_192s => 0x0202,
        SigId::SlhDsaSha2_192f => 0x0203,
        SigId::SlhDsaSha2_256s => 0x0204,
        SigId::SlhDsaSha2_256f => 0x0205,
        SigId::SlhDsaShake128s => 0x0206,
        SigId::SlhDsaShake128f => 0x0207,
        SigId::SlhDsaShake192s => 0x0208,
        SigId::SlhDsaShake192f => 0x0209,
        SigId::SlhDsaShake256s => 0x020A,
        SigId::SlhDsaShake256f => 0x020B,
    }
}

/// The signature identifier registered under a wire code, if any.
pub open spec fn sig_of_code(id: u16) -> Option<SigId> {
    if id == 0x0000 {
        Some(SigId::NoSignature)
    } else if id == 0x0001 {
        Some(SigId::MlDsa44)
    } else if id == 0x0002 {
        Some(SigId::MlDsa65)
    } else if id == 0x0003 {
        Some(SigId::MlDsa87)
    } else if id == 0x0100 {
        Some(SigId::Falcon512)
    } else if id == 0x0101 {
        Some(SigId::Falcon1024)
    } else if 0x0200 <= id <= 0x020B {
        Some(slh_of_offset((id - 0x0200) as u16))
    } else {
        None
    }
}

/// The SLH-DSA identifier at a given offset from 0x0200.
pub open spec fn slh_of_offset(off: u16) -> SigId {
    if off == 0 {
        SigId::SlhDsaSha2_128s
    } else if off == 1 {
        SigId::SlhDsaSha2_128f
    } else if off == 2 {
        SigId::SlhDsaSha2_192s
    } else if off == 3 {
        SigId::SlhDsaSha2_192f
    } else if off == 4 {
        SigId::SlhDsaSha2_256s
    } else if off == 5 {
        SigId::SlhDsaSha2_256f
    } else if off == 6 {
        SigId::SlhDsaShake128s
    } else if off == 7 {
        SigId::SlhDsaShake128f
    } else if off == 8 {
        SigId::SlhDsaShake192s
    } else if off == 9 {
        SigId::SlhDsaShake192f
    } else if off == 10 {
        SigId::SlhDsaShake256s
    } else {
        SigId::SlhDsaShake256f
    }
}

/// Every KEM code decodes back to its identifier.
pub proof fn lemma_kem_code_roundtrip(k: KemId)
    ensures
        kem_of_code(kem_code(k)) == Some(k),
{
}

/// Every signature code decodes back to its identifier.
pub proof fn lemma_sig_code_roundtrip(s: SigId)
    ensures
        sig_of_code(sig_code(s)) == Some(s),
{
}

impl KemId {
    /// The uint16 wire encoding of this identifier.
    pub fn as_u16(self) -> (r: u16)
        ensures
            r == kem_code(self),
    {
        match self {
            KemId::MlKem512 => 0x0001,
            KemId::MlKem768 => 0x0002,
            KemId::MlKem1024 => 0x0003,
        }
    }

    /// The identifier registered under `id`.
    ///
    /// Errors with [`CoreError::UnknownAlgorithm`] (kind `"KEM"`) for any other code.
    pub fn from_u16(id: u16) -> (r: CoreResult<KemId>)
        ensures
            match kem_of_code(id) {
                Some(k) => r == Ok::<KemId, CoreError>(k),
                None => r == Err::<KemId, CoreError>(CoreError::UnknownAlgorithm { kind: "KEM", id }),
            },
    {
        if id == 0x0001 {
            Ok(KemId::MlKem512)
        } else if id == 0x0002 {
            Ok(KemId::MlKem768)
        } else if id == 0x0003 {
            Ok(KemId::MlKem1024)
        } else {
            Err(CoreError::UnknownAlgorithm { kind: "KEM", id })
        }
    }
}

impl SigId {
    /// The uint16 wire encoding of this identifier.
    pub fn as_u16(self) -> (r: u16)
        ensures
            r == sig_code(self),
    {
        match self {
            SigId::NoSignature => 0x0000,
            SigId::MlDsa44 => 0x0001,
            SigId::MlDsa65 => 0x0002,
            SigId::MlDsa87 => 0x0003,
            SigId::Falcon512 => 0x0100,
            SigId::Falcon1024 => 0x0101,
            SigId::SlhDsaSha2_128s => 0x0200,
            SigId::SlhDsaSha2_128f => 0x0201,
            SigId::SlhDsaSha2_192s => 0x0202,
            SigId::SlhDsaSha2_192f => 0x0203,
            SigId::SlhDsaSha2_256s => 0x0204,
            SigId::SlhDsaSha2_256f => 0x0205,
            SigId::SlhDsaShake128s => 0x0206,
            SigId::SlhDsaShake128f => 0x0207,
            SigId::SlhDsaShake192s => 0x0208,
            SigId::SlhDsaShake192f => 0x0209,
            SigId::SlhDsaShake256s => 0x020A,
            SigId::SlhDsaShake256f => 0x020B,
        }
    }

    /// Whether this is the anonymous (no-signature) identifier.
    pub fn is_none(self) -> (r: bool)
        ensures
            r == (self == SigId::NoSignature),
    {
        match self {
            SigId::NoSignature => true,
            _ => false,
        }
    }

    /// The identifier registered under `id`.
    ///
    /// Errors with [`CoreError::UnknownAlgorithm`] (kind `"SIG"`) for any other code.
    pub fn from_u16(id: u16) -> (r: CoreResult<SigId>)
        ensures
            match sig_of_code(id) {
                Some(s) => r == Ok::<SigId, CoreError>(s),
                None => r == Err::<SigId, CoreError>(CoreError::UnknownAlgorithm { kind: "SIG", id }),
            },
    {
        if id == 0x0000 {
            Ok(SigId::NoSignature)
        } else if id == 0x0001 {
            Ok(SigId::MlDsa44)
        } else if id == 0x0002 {
            Ok(SigId::MlDsa65)
        } else if id == 0x0003 {
            Ok(SigId::MlDsa87)
        } else if id == 0x0100 {
            Ok(SigId::Falcon512)
        } else if id == 0x0101 {
            Ok(SigId::Falcon1024)
        } else if id == 0x0200 {
            Ok(SigId::SlhDsaSha2_128s)
        } else if id == 0x0201 {
            Ok(SigId::SlhDsaSha2_128f)
        } else if id == 0x0202 {
            Ok(SigId::SlhDsaSha2_192s)
        } else if id == 0x0203 {
            Ok(SigId::SlhDsaSha2_192f)
        } else if id == 0x0204 {
            Ok(SigId::SlhDsaSha2_256s)
        } else if id == 0x0205 {
            Ok(SigId::SlhDsaSha2_256f)
        } else if id == 0x0206 {
            Ok(SigId::SlhDsaShake128s)
        } else if id == 0x0207 {
            Ok(SigId::SlhDsaShake128f)
        } else if id == 0x0208 {
            Ok(SigId::SlhDsaShake192s)
        } else if id == 0x0209 {
            Ok(SigId::SlhDsaShake192f)
        } else if id == 0x020A {
            Ok(SigId::SlhDsaShake256s)
        } else if id == 0x020B {
            Ok(SigId::SlhDsaShake256f)
        } else {
            Err(CoreError::UnknownAlgorithm { kind: "SIG", id })
        }
    }
}

/// What converting a wire code to a KEM identifier gives.
pub open spec fn kem_from_code_spec(id: u16) -> Result<KemId, CoreError> {
    match kem_of_code(id) {
        Some(k) => Ok(k),
        None => Err(CoreError::UnknownAlgorithm { kind: "KEM", id }),
    }
}

/// What converting a wire code to a signature identifier gives.
pub open spec fn sig_from_code_spec(id: u16) -> Result<SigId, CoreError> {
    match sig_of_code(id) {
        Some(s) => Ok(s),
        None => Err(CoreError::UnknownAlgorithm { kind: "SIG", id }),
    }
}

impl TryFrom<u16> for KemId {
    type Error = CoreError;

    fn try_from(id: u16) -> (r: Result<KemId, CoreError>) {
        KemId::from_u16(id)
    }
}

impl vstd::std_specs::convert::TryFromSpecImpl<u16> for KemId {
    open spec fn obeys_try_from_spec() -> bool {
        true
    }

    open spec fn try_from_spec(id: u16) -> Result<KemId, CoreError> {
        kem_from_code_spec(id)
    }
}

impl TryFrom<u16> for SigId {
    type Error = CoreError;

    fn try_from(id: u16) -> (r: Result<SigId, CoreError>) {
        SigId::from_u16(id)
    }
}

impl vstd::std_specs::convert::TryFromSpecImpl<u16> for SigId {
    open spec fn obeys_try_from_spec() -> bool {
        true
    }

    open spec fn try_from_spec(id: u16) -> Result<SigId, CoreError> {
        sig_from_code_spec(id)
    }
}

/// The fixed 10-byte envelope header.
#[derive(Debug, Clone, Copy, PartialEq, Eq, Structural)]
pub struct Header {
    /// KEM algorithm used for key encapsulation.
    pub kem_id: KemId,
    /// Signature algorithm, or [`SigId::NoSignature`] for an anonymous envelope.
    pub sig_id: SigId,
    /// Reserved flags byte; must be `0x00` in v1.
    pub flags: u8,
}

/// A decoded (or to-be-encoded) v1 envelope.
#[derive(Debug, Clone, PartialEq, Eq)]
pub struct Envelope {
    /// Fixed header.
    pub header: Header,
    /// KEM ciphertext.
    pub ct_kem: Vec<u8>,
    /// Sender public key.
    pub sender_pub: Vec<u8>,
    /// Signature; `Some` iff `header.sig_id != SigId::NoSignature`.
    pub signature: Option<Vec<u8>>,
    /// AES-256-GCM nonce.
    pub nonce: [u8; 12],
    /// AES-256-GCM ciphertext.
    pub ciphertext: Vec<u8>,
}

/// The mathematical content of an [`Envelope`].
pub struct EnvelopeView {
    /// Fixed header.
    pub header: Header,
    /// KEM ciphertext.
    pub ct_kem: Seq<u8>,
    /// Sender public key.
    pub sender_pub: Seq<u8>,
    /// Signature, if any.
    pub signature: Option<Seq<u8>>,
    /// AES-256-GCM nonce (12 bytes).
    pub nonce: Seq<u8>,
    /// AES-256-GCM ciphertext.
    pub ciphertext: Seq<u8>,
}

/// The view of an optional byte vector.
pub open spec fn opt_bytes(o: Option<Vec<u8>>) -> Option<Seq<u8>> {
    match o {
        Some(v) => Some(v@),
        None => None,
    }
}

impl View for Envelope {
    type V = EnvelopeView;

    open spec fn view(&self) -> EnvelopeView {
        EnvelopeView {
            header: self.header,
            ct_kem: self.ct_kem@,
            sender_pub: self.sender_pub@,
            signature: opt_bytes(self.signature),
            nonce: self.nonce@,
            ciphertext: self.ciphertext@,
        }
    }
}

/// The four magic bytes `PQHB`.
pub open spec fn magic() -> Seq<u8> {
    seq![0x50u8, 0x51u8, 0x48u8, 0x42u8]
}

/// The 10 header bytes of `h`.
pub open spec fn header_bytes(h: Header) -> Seq<u8> {
    magic() + seq![1u8] + be16(kem_code(h.kem_id)) + be16(sig_code(h.sig_id)) + seq![h.flags]
}

/// A field with its `u32` length prefix (the length is taken modulo 2^32).
pub open spec fn field_bytes(f: Seq<u8>) -> Seq<u8> {
    be32((f.len() % 0x1_0000_0000) as u32) + f
}

/// The optional signature section.
pub open spec fn sig_section(s: Option<Seq<u8>>) -> Seq<u8> {
    match s {
        Some(x) => field_bytes(x),
        None => Seq::empty(),
    }
}

/// The serialized bytes of an envelope.
pub open spec fn envelope_bytes(e: EnvelopeView) -> Seq<u8> {
    header_bytes(e.header) + field_bytes(e.ct_kem) + field_bytes(e.sender_pub) + sig_section(
        e.signature,
    ) + e.nonce + field_bytes(e.ciphertext)
}

/// What [`Envelope::encode`] returns for `e`.
pub open spec fn encode_spec(e: EnvelopeView) -> Result<Seq<u8>, CoreError> {
    if e.header.flags != 0 {
        Err(CoreError::Wire("flags must be 0x00 in v1"))
    } else if e.signature is Some && e.header.sig_id == SigId::NoSignature {
        Err(CoreError::Wire("signature present with SIG_ID 0x0000"))
    } else if e.signature is None && e.header.sig_id != SigId::NoSignature {
        Err(CoreError::Wire("signature absent with non-zero SIG_ID"))
    } else {
        Ok(envelope_bytes(e))
    }
}

/// What reading `len` bytes at `at` yields.
pub open spec fn read_bytes_spec(b: Seq<u8>, at: int, len: int) -> Result<Seq<u8>, CoreError> {
    if at + len > usize::MAX {
        Err(CoreError::Wire("length overflow"))
    } else if at + len > b.len() {
        Err(CoreError::Wire("field exceeds buffer"))
    } else {
        Ok(b.subrange(at, at + len))
    }
}

/// What reading a length-prefixed field at `at` yields: the field and the offset after it.
pub open spec fn read_field_spec(b: Seq<u8>, at: int) -> Result<(Seq<u8>, int), CoreError> {
    match read_bytes_spec(b, at, 4) {
        Err(e) => Err(e),
        Ok(lb) => {
            let len = be32_value(lb) as int;
            match read_bytes_spec(b, at + 4, len) {
                Err(e) => Err(e),
                Ok(f) => Ok((f, at + 4 + len)),
            }
        },
    }
}

/// The signature section read at `at`: present iff `sig_id` is not `None`.
pub open spec fn read_sig_spec(b: Seq<u8>, sig_id: SigId, at: int) -> Result<
    (Option<Seq<u8>>, int),
    CoreError,
> {
    if sig_id == SigId::NoSignature {
        Ok((None, at))
    } else {
        match read_field_spec(b, at) {
            Err(e) => Err(e),
            Ok((s, o)) => Ok((Some(s), o)),
        }
    }
}

/// The body of an envelope after a valid header.
pub open spec fn decode_body_spec(b: Seq<u8>, h: Header) -> Result<(EnvelopeView, int), CoreError> {
    match read_field_spec(b, 10) {
        Err(e) => Err(e),
        Ok((ct_kem, o1)) => match read_field_spec(b, o1) {
            Err(e) => Err(e),
            Ok((sender_pub, o2)) => match read_sig_spec(b, h.sig_id, o2) {
                Err(e) => Err(e),
                Ok((signature, o3)) => match read_bytes_spec(b, o3, 12) {
                    Err(e) => Err(e),
                    Ok(nonce) => match read_field_spec(b, o3 + 12) {
                        Err(e) => Err(e),
                        Ok((ciphertext, o4)) => Ok(
                            (
                                EnvelopeView {
                                    header: h,
                                    ct_kem,
                                    sender_pub,
                                    signature,
                                    nonce,
                                    ciphertext,
                                },
                                o4,
                            ),
                        ),
                    },
                },
            },
        },
    }
}

/// What [`Envelope::decode_prefix`] returns for `b`: the envelope and the bytes it spans.
pub open spec fn decode_prefix_spec(b: Seq<u8>) -> Result<(EnvelopeView, int), CoreError> {
    if b.len() < 10 {
        Err(CoreError::Wire("buffer shorter than header"))
    } else if b.subrange(0, 4) != magic() {
        Err(CoreError::Wire("bad magic (expected PQHB)"))
    } else if b[4] != 1 {
        Err(CoreError::Wire("unsupported version"))
    } else {
        let kid = be16_value(b[5], b[6]);
        let sid = be16_value(b[7], b[8]);
        match kem_of_code(kid) {
            None => Err(CoreError::UnknownAlgorithm { kind: "KEM", id: kid }),
            Some(kem_id) => match sig_of_code(sid) {
                None => Err(CoreError::UnknownAlgorithm { kind: "SIG", id: sid }),
                Some(sig_id) => if b[9] != 0 {
                    Err(CoreError::Wire("flags must be 0x00 in v1"))
                } else {
                    decode_body_spec(b, Header { kem_id, sig_id, flags: 0 })
                },
            },
        }
    }
}

/// What [`Envelope::decode`] returns for `b`.
pub open spec fn decode_spec(b: Seq<u8>) -> Result<EnvelopeView, CoreError> {
    match decode_prefix_spec(b) {
        Err(e) => Err(e),
        Ok((e, n)) => if n != b.len() {
            Err(CoreError::Wire("trailing bytes after ciphertext"))
        } else {
            Ok(e)
        },
    }
}

/// The 14 AAD bytes for chunk `i` under header `h`.
pub open spec fn aad_bytes(h: Header, i: u32) -> Seq<u8> {
    header_bytes(h) + be32(i)
}

/// An envelope that encodes and whose fields all fit their `u32` length prefixes.
pub open spec fn well_formed(e: EnvelopeView) -> bool {
    &&& e.header.flags == 0
    &&& (e.signature is Some <==> e.header.sig_id != SigId::NoSignature)
    &&& e.nonce.len() == 12
    &&& e.ct_kem.len() < 0x1_0000_0000
    &&& e.sender_pub.len() < 0x1_0000_0000
    &&& e.ciphertext.len() < 0x1_0000_0000
    &&& (e.signature matches Some(s) ==> s.len() < 0x1_0000_0000)
}


/// Reading a length-prefixed field that is laid out at `at` gives the field back.
proof fn lemma_read_field_of(b: Seq<u8>, at: int, f: Seq<u8>)
    requires
        0 <= at,
        f.len() < 0x1_0000_0000,
        at + 4 + f.len() <= b.len() <= usize::MAX,
        b.subrange(at, at + 4 + f.len()) == field_bytes(f),
    ensures
        read_field_spec(b, at) == Ok::<(Seq<u8>, int), CoreError>((f, at + 4 + f.len())),
{
    let len = (f.len() % 0x1_0000_0000) as u32;
    lemma_be32_roundtrip(len);
    assert(b.subrange(at, at + 4) =~= be32(len)) by {
        assert forall|i: int| 0 <= i < 4 implies b.subrange(at, at + 4)[i] == be32(len)[i] by {
            assert(b.subrange(at, at + 4 + f.len())[i] == field_bytes(f)[i]);
        }
    }
    assert(b.subrange(at + 4, at + 4 + f.len()) =~= f) by {
        assert forall|i: int| 0 <= i < f.len() implies b.subrange(at + 4, at + 4 + f.len())[i]
            == f[i] by {
            assert(b.subrange(at, at + 4 + f.len())[i + 4] == field_bytes(f)[i + 4]);
        }
    }
}

/// `x` lies in `b` starting at position `p`.
pub open spec fn lies_at(b: Seq<u8>, p: int, x: Seq<u8>) -> bool {
    0 <= p && p + x.len() <= b.len() && b.subrange(p, p + x.len()) == x
}

/// A concatenation that lies at `p` splits into its two parts.
proof fn lemma_lies_at_split(b: Seq<u8>, p: int, x: Seq<u8>, y: Seq<u8>)
    requires
        lies_at(b, p, x + y),
    ensures
        lies_at(b, p, x),
        lies_at(b, p + x.len(), y),
{
    assert(b.subrange(p, p + x.len()) =~= x) by {
        assert forall|i: int| 0 <= i < x.len() implies b.subrange(p, p + x.len())[i] == x[i] by {
            assert(b.subrange(p, p + (x + y).len())[i] == (x + y)[i]);
        }
    }
    assert(b.subrange(p + x.len(), p + x.len() + y.len()) =~= y) by {
        assert forall|i: int| 0 <= i < y.len() implies b.subrange(
            p + x.len(),
            p + x.len() + y.len(),
        )[i] == y[i] by {
            assert(b.subrange(p, p + (x + y).len())[x.len() + i] == (x + y)[x.len() + i]);
        }
    }
}

/// The body of a well-formed envelope laid out after a 10-byte header decodes back.
#[verifier::rlimit(40)]
#[verifier::spinoff_prover]
proof fn lemma_decode_body_of(b: Seq<u8>, e: EnvelopeView)
    requires
        well_formed(e),
        b.len() <= usize::MAX,
        lies_at(b, 0, envelope_bytes(e)),
    ensures
        decode_body_spec(b, e.header) == Ok::<(EnvelopeView, int), CoreError>(
            (e, envelope_bytes(e).len() as int),
        ),
{
    let hb = header_bytes(e.header);
    let f1 = field_bytes(e.ct_kem);
    let f2 = field_bytes(e.sender_pub);
    let ss = sig_section(e.signature);
    let f3 = field_bytes(e.ciphertext);
    let l1 = hb + f1;
    let l2 = l1 + f2;
    let l3 = l2 + ss;
    let l4 = l3 + e.nonce;
    lemma_lies_at_split(b, 0, l4, f3);
    lemma_lies_at_split(b, 0, l3, e.nonce);
    lemma_lies_at_split(b, 0, l2, ss);
    lemma_lies_at_split(b, 0, l1, f2);
    lemma_lies_at_split(b, 0, hb, f1);
    let o1: int = l1.len() as int;
    let o2: int = l2.len() as int;
    let o3: int = l3.len() as int;
    lemma_read_field_of(b, 10, e.ct_kem);
    lemma_read_field_of(b, o1, e.sender_pub);
    match e.signature {
        Some(s) => {
            lemma_read_field_of(b, o2, s);
        },
        None => {},
    }
    lemma_read_field_of(b, o3 + 12, e.ciphertext);
}

/// Decoding the bytes of a well-formed envelope, followed by anything at all,
/// gives the envelope back together with the number of bytes it spans.
pub proof fn lemma_decode_prefix_of_encoding(e: EnvelopeView, tail: Seq<u8>)
    requires
        well_formed(e),
        envelope_bytes(e).len() + tail.len() <= usize::MAX,
    ensures
        decode_prefix_spec(envelope_bytes(e) + tail) == Ok::<(EnvelopeView, int), CoreError>(
            (e, envelope_bytes(e).len() as int),
        ),
{
    let h = e.header;
    let eb = envelope_bytes(e);
    let b = eb + tail;
    let hb = header_bytes(h);
    assert(b.subrange(0, eb.len() as int) =~= eb);
    assert(lies_at(b, 0, eb));
    lemma_be16_roundtrip(kem_code(h.kem_id));
    lemma_be16_roundtrip(sig_code(h.sig_id));
    lemma_kem_code_roundtrip(h.kem_id);
    lemma_sig_code_roundtrip(h.sig_id);
    assert(b[0] == hb[0] && b[1] == hb[1] && b[2] == hb[2] && b[3] == hb[3]);
    assert(b.subrange(0, 4) =~= magic());
    assert(b[4] == hb[4] && b[5] == hb[5] && b[6] == hb[6] && b[7] == hb[7] && b[8] == hb[8]
        && b[9] == hb[9]);
    assert(hb[5] == be16(kem_code(h.kem_id))[0] && hb[6] == be16(kem_code(h.kem_id))[1]);
    assert(hb[7] == be16(sig_code(h.sig_id))[0] && hb[8] == be16(sig_code(h.sig_id))[1]);
    lemma_decode_body_of(b, e);
    assert(h == Header { kem_id: h.kem_id, sig_id: h.sig_id, flags: 0 });
}

/// Encoding a well-formed envelope succeeds, and decoding its bytes gives it back.
pub proof fn lemma_decode_inverts_encode(e: EnvelopeView)
    requires
        well_formed(e),
        envelope_bytes(e).len() <= usize::MAX,
    ensures
        encode_spec(e) == Ok::<Seq<u8>, CoreError>(envelope_bytes(e)),
        decode_spec(envelope_bytes(e)) == Ok::<EnvelopeView, CoreError>(e),
{
    lemma_decode_prefix_of_encoding(e, Seq::empty());
    assert(envelope_bytes(e) + Seq::<u8>::empty() =~= envelope_bytes(e));
}

/// A code that decodes to a KEM identifier is that identifier's code.
proof fn lemma_kem_of_code_inverse(id: u16)
    requires
        kem_of_code(id) is Some,
    ensures
        kem_code(kem_of_code(id).unwrap()) == id,
{
}

/// A code that decodes to a signature identifier is that identifier's code.
proof fn lemma_sig_of_code_inverse(id: u16)
    requires
        sig_of_code(id) is Some,
    ensures
        sig_code(sig_of_code(id).unwrap()) == id,
{
}

/// Adjacent pieces of a sequence join up.
proof fn lemma_subrange_join(b: Seq<u8>, i: int, j: int, k: int)
    requires
        0 <= i <= j <= k <= b.len(),
    ensures
        b.subrange(i, k) == b.subrange(i, j) + b.subrange(j, k),
{
    assert(b.subrange(i, k) =~= b.subrange(i, j) + b.subrange(j, k));
}

/// A field read at `at` is laid out there, length prefix and all.
proof fn lemma_field_of_read(b: Seq<u8>, at: int)
    requires
        0 <= at,
        read_field_spec(b, at) is Ok,
    ensures
        ({
            let (f, o) = read_field_spec(b, at)->Ok_0;
            &&& o == at + 4 + f.len()
            &&& f.len() < 0x1_0000_0000
            &&& o <= b.len()
            &&& b.subrange(at, o) == field_bytes(f)
        }),
{
    let lb = b.subrange(at, at + 4);
    let len = be32_value(lb) as int;
    let f = b.subrange(at + 4, at + 4 + len);
    lemma_be32_value_roundtrip(lb);
    assert(f.len() == len);
    assert(((f.len() % 0x1_0000_0000) as u32) == be32_value(lb));
    lemma_subrange_join(b, at, at + 4, at + 4 + len);
}

/// Whatever [`Envelope::decode_prefix`] accepts is well formed and is, up to
/// the bytes it spans, exactly the encoding of what it returns: the wire
/// format has one encoding per envelope.
#[verifier::rlimit(40)]
#[verifier::spinoff_prover]
pub proof fn lemma_decoded_prefix_is_canonical(b: Seq<u8>)
    requires
        decode_prefix_spec(b) is Ok,
    ensures
        ({
            let (e, n) = decode_prefix_spec(b)->Ok_0;
            &&& well_formed(e)
            &&& n == envelope_bytes(e).len()
            &&& lies_at(b, 0, envelope_bytes(e))
        }),
{
    let kid = be16_value(b[5], b[6]);
    let sid = be16_value(b[7], b[8]);
    let kem_id = kem_of_code(kid).unwrap();
    let sig_id = sig_of_code(sid).unwrap();
    let h = Header { kem_id, sig_id, flags: 0 };
    lemma_kem_of_code_inverse(kid);
    lemma_sig_of_code_inverse(sid);
    lemma_be16_value_roundtrip(b[5], b[6]);
    lemma_be16_value_roundtrip(b[7], b[8]);
    assert(b.subrange(0, 10) =~= header_bytes(h)) by {
        assert(b.subrange(0, 4) == magic());
        assert(b.subrange(0, 4)[0] == b[0] && b.subrange(0, 4)[1] == b[1] && b.subrange(0, 4)[2] == b[2]
            && b.subrange(0, 4)[3] == b[3]);
    }
    lemma_field_of_read(b, 10);
    let (ct_kem, o1) = read_field_spec(b, 10)->Ok_0;
    lemma_field_of_read(b, o1);
    let (sender_pub, o2) = read_field_spec(b, o1)->Ok_0;
    let (signature, o3) = read_sig_spec(b, sig_id, o2)->Ok_0;
    if sig_id != SigId::NoSignature {
        lemma_field_of_read(b, o2);
    }
    assert(b.subrange(o2, o3) =~= sig_section(signature));
    let nonce = b.subrange(o3, o3 + 12);
    lemma_field_of_read(b, o3 + 12);
    let (ciphertext, o4) = read_field_spec(b, o3 + 12)->Ok_0;
    let e = EnvelopeView { header: h, ct_kem, sender_pub, signature, nonce, ciphertext };
    assert(decode_prefix_spec(b) == Ok::<(EnvelopeView, int), CoreError>((e, o4)));
    lemma_subrange_join(b, 0, 10, o1);
    lemma_subrange_join(b, 0, o1, o2);
    lemma_subrange_join(b, 0, o2, o3);
    lemma_subrange_join(b, 0, o3, o3 + 12);
    lemma_subrange_join(b, 0, o3 + 12, o4);
    assert(b.subrange(0, o4) =~= envelope_bytes(e));
}

/// Whatever [`Envelope::decode`] accepts, [`Envelope::encode`] writes back
/// byte for byte.
pub proof fn lemma_encode_inverts_decode(b: Seq<u8>)
    requires
        decode_spec(b) is Ok,
    ensures
        encode_spec(decode_spec(b)->Ok_0) == Ok::<Seq<u8>, CoreError>(b),
{
    lemma_decoded_prefix_is_canonical(b);
    let (e, n) = decode_prefix_spec(b)->Ok_0;
    assert(b.subrange(0, n) =~= b);
}

/// A buffer shorter than a header, or whose header has the wrong magic or
/// version, non-zero flags, or an unregistered KEM or signature code, is
/// refused.
pub proof fn lemma_decode_rejects_bad_header(b: Seq<u8>)
    requires
        b.len() < 10 || b.subrange(0, 4) != magic() || b[4] != 1 || b[9] != 0 || kem_of_code(
            be16_value(b[5], b[6]),
        ) is None || sig_of_code(be16_value(b[7], b[8])) is None,
    ensures
        decode_prefix_spec(b) is Err,
        decode_spec(b) is Err,
{
}

/// An encoding followed by more bytes does not decode.
#[verifier::spinoff_prover]
pub proof fn lemma_decode_rejects_extension(e: EnvelopeView, tail: Seq<u8>)
    requires
        well_formed(e),
        envelope_bytes(e).len() + tail.len() <= usize::MAX,
        tail.len() > 0,
    ensures
        decode_spec(envelope_bytes(e) + tail) is Err,
{
    lemma_decode_prefix_of_encoding(e, tail);
}

/// No proper prefix of an encoding decodes.
#[verifier::spinoff_prover]
#[verifier::rlimit(40)]
pub proof fn lemma_decode_rejects_truncation(e: EnvelopeView, cut: int)
    requires
        well_formed(e),
        envelope_bytes(e).len() <= usize::MAX,
        0 <= cut < envelope_bytes(e).len(),
    ensures
        decode_spec(envelope_bytes(e).subrange(0, cut)) is Err,
{
    let eb = envelope_bytes(e);
    let p = eb.subrange(0, cut);
    if decode_spec(p) is Ok {
        lemma_decoded_prefix_is_canonical(p);
        let (e2, n) = decode_prefix_spec(p)->Ok_0;
        assert(n == p.len());
        assert(p.subrange(0, n) =~= p);
        assert(envelope_bytes(e2) == p);
        let rest = eb.subrange(cut, eb.len() as int);
        assert(p + rest =~= eb);
        lemma_decode_prefix_of_encoding(e2, rest);
        lemma_decode_prefix_of_encoding(e, Seq::empty());
        assert(eb + Seq::<u8>::empty() =~= eb);
    }
}

impl Envelope {
    /// Serialise to the v1 wire format.
    ///
    /// Errors with [`CoreError::Wire`] if `flags != 0`, or if the signature
    /// presence disagrees with `sig_id`.
    pub fn encode(&self) -> (r: CoreResult<Vec<u8>>)
        ensures
            match encode_spec(self@) {
                Ok(b) => r matches Ok(v) && v@ == b,
                Err(e) => r == Err::<Vec<u8>, CoreError>(e),
            },
    {
        if self.header.flags != 0x00 {
            return Err(CoreError::Wire("flags must be 0x00 in v1"));
        }
        let signed = !self.header.sig_id.is_none();
        match (&self.signature, signed) {
            (Some(_), false) => { return Err(CoreError::Wire("signature present with SIG_ID 0x0000")) },
            (None, true) => { return Err(CoreError::Wire("signature absent with non-zero SIG_ID")) },
            _ => {},
        }
        let mut out: Vec<u8> = Vec::new();
        append_bytes(&mut out, &WIRE_MAGIC);
        out.push(WIRE_VERSION_V1);
        append_bytes(&mut out, &u16_to_be(self.header.kem_id.as_u16()));
        append_bytes(&mut out, &u16_to_be(self.header.sig_id.as_u16()));
        out.push(self.header.flags);
        assert(out@ =~= header_bytes(self.header));
        put_field(&mut out, self.ct_kem.as_slice());
        put_field(&mut out, self.sender_pub.as_slice());
        let ghost before_sig = out@;
        match &self.signature {
            Some(sig) => {
                put_field(&mut out, sig.as_slice());
            },
            None => {},
        }
        assert(out@ =~= before_sig + sig_section(opt_bytes(self.signature)));
        append_bytes(&mut out, &self.nonce);
        put_field(&mut out, self.ciphertext.as_slice());
        assert(out@ =~= envelope_bytes(self@));
        Ok(out)
    }

    /// Parse a v1 wire-format envelope, consuming the whole buffer.
    ///
    /// Rejects wrong magic, unsupported version, non-zero flags, unknown
    /// KEM/SIG IDs, a length prefix overrunning the buffer, and trailing bytes.
    pub fn decode(bytes: &[u8]) -> (r: CoreResult<Envelope>)
        ensures
            match decode_spec(bytes@) {
                Ok(e) => r matches Ok(v) && v@ == e,
                Err(e) => r matches Err(x) && x == e,
            },
    {
        let (envelope, consumed) = Self::decode_prefix(bytes)?;
        if consumed != bytes.len() {
            return Err(CoreError::Wire("trailing bytes after ciphertext"));
        }
        Ok(envelope)
    }

    /// Decode one envelope from the start of `bytes`, returning it and the
    /// number of bytes it consumed; trailing bytes are tolerated.
    pub fn decode_prefix(bytes: &[u8]) -> (r: CoreResult<(Envelope, usize)>)
        ensures
            match decode_prefix_spec(bytes@) {
                Ok((e, n)) => r matches Ok((v, m)) && v@ == e && m == n,
                Err(e) => r matches Err(x) && x == e,
            },
    {
        if bytes.len() < HEADER_FIXED_SIZE {
            return Err(CoreError::Wire("buffer shorter than header"));
        }
        if bytes[0] != 0x50 || bytes[1] != 0x51 || bytes[2] != 0x48 || bytes[3] != 0x42 {
            assert(bytes@.subrange(0, 4) != magic()) by {
                if bytes@.subrange(0, 4) == magic() {
                    assert(bytes@.subrange(0, 4)[0] == bytes@[0]);
                    assert(bytes@.subrange(0, 4)[1] == bytes@[1]);
                    assert(bytes@.subrange(0, 4)[2] == bytes@[2]);
                    assert(bytes@.subrange(0, 4)[3] == bytes@[3]);
                }
            }
            return Err(CoreError::Wire("bad magic (expected PQHB)"));
        }
        assert(bytes@.subrange(0, 4) =~= magic());
        if bytes[4] != WIRE_VERSION_V1 {
            return Err(CoreError::Wire("unsupported version"));
        }
        let kem_id = KemId::from_u16(read_u16_be(bytes, 5))?;
        let sig_id = SigId::from_u16(read_u16_be(bytes, 7))?;
        let flags = bytes[9];
        if flags != 0x00 {
            return Err(CoreError::Wire("flags must be 0x00 in v1"));
        }
        let header = Header { kem_id, sig_id, flags };
        let mut off: usize = HEADER_FIXED_SIZE;
        let ct_kem = read_field(bytes, &mut off)?;
        let sender_pub = read_field(bytes, &mut off)?;
        let signature = if sig_id.is_none() {
            None
        } else {
            Some(read_field(bytes, &mut off)?)
        };
        let nonce_end = read_end(bytes, off, NONCE_SIZE)?;
        let nonce: [u8; 12] = [
            bytes[off],
            bytes[off + 1],
            bytes[off + 2],
            bytes[off + 3],
            bytes[off + 4],
            bytes[off + 5],
            bytes[off + 6],
            bytes[off + 7],
            bytes[off + 8],
            bytes[off + 9],
            bytes[off + 10],
            bytes[off + 11],
        ];
        assert(nonce@ =~= bytes@.subrange(off as int, off + 12));
        off = nonce_end;
        let ciphertext = read_field(bytes, &mut off)?;
        let envelope = Envelope { header, ct_kem, sender_pub, signature, nonce, ciphertext };
        assert(envelope@ == decode_prefix_spec(bytes@).unwrap().0);
        Ok((envelope, off))
    }

    /// The 14-byte AEAD additional authenticated data for chunk `chunk_index`:
    /// `HEADER (10) || chunk_index_be32 (4)`.
    pub fn aad_for_chunk(&self, chunk_index: u32) -> (r: [u8; 14])
        ensures
            r@ == aad_bytes(self.header, chunk_index),
    {
        header_aad(self.header, chunk_index)
    }
}

/// The AAD bytes for chunk `chunk_index` under header `h`.
pub fn header_aad(h: Header, chunk_index: u32) -> (r: [u8; 14])
    ensures
        r@ == aad_bytes(h, chunk_index),
{
    let k = u16_to_be(h.kem_id.as_u16());
    let s = u16_to_be(h.sig_id.as_u16());
    let c = u32_to_be(chunk_index);
    let aad = [0x50, 0x51, 0x48, 0x42, WIRE_VERSION_V1, k[0], k[1], s[0], s[1], h.flags, c[0], c[1], c[2], c[3]];
    assert(aad@ =~= aad_bytes(h, chunk_index));
    aad
}

/// Append a `u32` big-endian length prefix followed by the field bytes.
fn put_field(out: &mut Vec<u8>, field: &[u8])
    ensures
        final(out)@ == old(out)@ + field_bytes(field@),
{
    let len64: u64 = field.len() as u64;
    let len32: u32 = (len64 % 0x1_0000_0000) as u32;
    append_bytes(out, &u32_to_be(len32));
    append_bytes(out, field);
    assert(final(out)@ =~= old(out)@ + field_bytes(field@));
}

/// The big-endian `u16` at `at` (which must lie within the buffer).
fn read_u16_be(buf: &[u8], at: usize) -> (r: u16)
    requires
        at + 2 <= buf@.len(),
    ensures
        r == be16_value(buf@[at as int], buf@[at + 1]),
{
    (buf[at] as u16) * 256 + (buf[at + 1] as u16)
}

/// The big-endian `u32` at `at`, or the error reading those four bytes gives.
fn read_u32_be(buf: &[u8], at: usize) -> (r: CoreResult<u32>)
    ensures
        match read_bytes_spec(buf@, at as int, 4) {
            Ok(b) => r == Ok::<u32, CoreError>(be32_value(b)),
            Err(e) => r matches Err(x) && x == e,
        },
{
    let end = read_end(buf, at, 4)?;
    let v: u32 = (buf[at] as u32) * 0x100_0000 + (buf[at + 1] as u32) * 0x1_0000 + (buf[at + 2] as u32) * 256 + (buf[at + 3] as u32);
    let ghost b = buf@.subrange(at as int, at + 4);
    assert(b[0] == buf@[at as int] && b[1] == buf@[at + 1] && b[2] == buf@[at + 2] && b[3] == buf@[at + 3]);
    Ok(v)
}

/// The end offset of `len` bytes at `at`, checking that they lie within the buffer.
fn read_end(buf: &[u8], at: usize, len: usize) -> (r: CoreResult<usize>)
    ensures
        match read_bytes_spec(buf@, at as int, len as int) {
            Ok(b) => r == Ok::<usize, CoreError>((at + len) as usize),
            Err(e) => r matches Err(x) && x == e,
        },
{
    let end = match at.checked_add(len) {
        Some(e) => e,
        None => { return Err(CoreError::Wire("length overflow")) },
    };
    if end > buf.len() {
        return Err(CoreError::Wire("field exceeds buffer"));
    }
    Ok(end)
}

/// Read a `u32`-length-prefixed field at `*off`, advancing `*off` past it.
fn read_field(buf: &[u8], off: &mut usize) -> (r: CoreResult<Vec<u8>>)
    ensures
        match read_field_spec(buf@, *old(off) as int) {
            Ok((f, o)) => r matches Ok(v) && v@ == f && *final(off) == o,
            Err(e) => r matches Err(x) && x == e,
        },
{
    let len = read_u32_be(buf, *off)? as usize;
    *off = *off + 4;
    let end = read_end(buf, *off, len)?;
    let field = copy_range(buf, *off, end);
    *off = end;
    Ok(field)
}

} // verus!
