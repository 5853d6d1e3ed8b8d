//! Anonymous BIP-39 drop (ParaDrop): relay `drop` / `pickup`.
//!
//! ParaDrop does not use the PQHB wire format. A sender generates 16 bytes of
//! BIP-39 entropy (a 12-word mnemonic the recipient receives out of band), and
//! both sides derive symmetric material straight from that entropy:
//!
//! ```text
//! prk        = HKDF-Extract(salt = "paramant-drop-v1", ikm = entropy)
//! aes_key    = HKDF-Expand(prk, "aes-key",   32)
//! lookup_id  = SHA-256(HKDF-Expand(prk, "lookup-id", 32))   // relay storage key
//! ```
//!
//! The payload is AES-256-GCM with no AAD, framed as
//!
//! ```text
//! packet = nonce(12) || ct_len_be32 || ciphertext      (ciphertext = ct || tag)
//! ```
//!
//! padded with random bytes to a caller block size; the boundary is the
//! explicit `ct_len`, so trailing padding is ignored on open.

use vstd::prelude::*;
use vstd::slice::slice_subrange;

use crate::aead::{self, aes_gcm_seal_spec, decrypt_spec};
use crate::bytes::{append_bytes, be32, be32_value, to_array32, u32_to_be};
use crate::envelope::pad_to_block;
use crate::error::{CoreError, CoreResult};
use crate::hash::{sha256, sha256_spec};
use crate::kdf::hkdf::{self, hkdf_expand_spec, hkdf_extract_spec};
use crate::mnemonic::Mnemonic;
use crate::random::{random_nonce, system_random};

verus! {

/// HKDF salt: `"paramant-drop-v1"`.
pub const SALT: [u8; 16] = [
    0x70, 0x61, 0x72, 0x61, 0x6d, 0x61, 0x6e, 0x74, 0x2d, 0x64, 0x72, 0x6f, 0x70, 0x2d, 0x76, 0x31,
];
/// HKDF `info` for the AES key: `"aes-key"`.
pub const INFO_AES: [u8; 7] = [0x61, 0x65, 0x73, 0x2d, 0x6b, 0x65, 0x79];
/// HKDF `info` for the lookup id: `"lookup-id"`.
pub const INFO_ID: [u8; 9] = [0x6c, 0x6f, 0x6f, 0x6b, 0x75, 0x70, 0x2d, 0x69, 0x64];
/// Bytes of entropy behind a fresh drop (a 12-word mnemonic).
pub const ENTROPY_LEN: usize = 16;
/// Length of the packet's nonce.
pub const NONCE_SIZE: usize = 12;
/// Length of the packet's big-endian ciphertext length.
pub const LEN_PREFIX: usize = 4;

/// The HKDF pseudorandom key of a drop's entropy.
pub open spec fn drop_prk(entropy: Seq<u8>) -> Seq<u8> {
    hkdf_extract_spec(Some(SALT@), entropy)
}

/// The AES-256-GCM key of a drop's entropy.
pub open spec fn drop_key_spec(entropy: Seq<u8>) -> Seq<u8> {
    hkdf_expand_spec(drop_prk(entropy), INFO_AES@, 32)
}

/// The relay lookup id of a drop's entropy.
pub open spec fn lookup_id_spec(entropy: Seq<u8>) -> Seq<u8> {
    sha256_spec(hkdf_expand_spec(drop_prk(entropy), INFO_ID@, 32))
}

/// The ciphertext length a packet declares (bytes 12..16, big-endian).
pub open spec fn declared_len(packet: Seq<u8>) -> int {
    be32_value(packet.subrange(12, 16)) as int
}

/// `packet` (possibly followed by padding) begins with a drop packet whose
/// ciphertext seals `plaintext` under the key of `entropy`, with no AAD.
pub open spec fn sealed_drop(packet: Seq<u8>, entropy: Seq<u8>, plaintext: Seq<u8>) -> bool {
    &&& packet.len() >= 16
    &&& declared_len(packet) == plaintext.len() + 16
    &&& 16 + declared_len(packet) <= packet.len()
    &&& packet.subrange(16, 16 + declared_len(packet)) == aes_gcm_seal_spec(
        drop_key_spec(entropy),
        packet.subrange(0, 12),
        Seq::empty(),
        plaintext,
    )
}

/// What [`open`] returns.
pub open spec fn open_spec(entropy: Seq<u8>, packet: Seq<u8>) -> Result<Seq<u8>, CoreError> {
    if packet.len() < 16 {
        Err(CoreError::Wire("drop packet shorter than header"))
    } else if 16 + declared_len(packet) > usize::MAX {
        Err(CoreError::Wire("ct_len overflow"))
    } else if 16 + declared_len(packet) > packet.len() {
        Err(CoreError::Wire("ct_len exceeds packet"))
    } else {
        decrypt_spec(
            drop_key_spec(entropy),
            packet.subrange(0, 12),
            Seq::empty(),
            packet.subrange(16, 16 + declared_len(packet)),
        )
    }
}

/// Random bytes appended after a drop packet do not change what it seals.
pub proof fn lemma_sealed_drop_ignores_padding(
    packet: Seq<u8>,
    padding: Seq<u8>,
    entropy: Seq<u8>,
    plaintext: Seq<u8>,
)
    requires
        sealed_drop(packet, entropy, plaintext),
    ensures
        sealed_drop(packet + padding, entropy, plaintext),
{
    let n = declared_len(packet);
    let padded = packet + padding;
    assert(padded.subrange(12, 16) =~= packet.subrange(12, 16));
    assert(padded.subrange(0, 12) =~= packet.subrange(0, 12));
    assert(padded.subrange(16, 16 + n) =~= packet.subrange(16, 16 + n));
}

/// Derive the AES-256-GCM key and the relay lookup id from BIP-39 `entropy`.
///
/// `lookup_id = SHA-256(HKDF-Expand(prk, "lookup-id", 32))`; the relay uses its
/// hex form as the storage/retrieval key.
pub fn derive(entropy: &[u8]) -> (r: CoreResult<([u8; 32], [u8; 32])>)
    ensures
        r matches Ok((key, id)) && key@ == drop_key_spec(entropy@) && id@ == lookup_id_spec(
            entropy@,
        ),
        r matches Ok((key, id)) ==> {
            &&& key@ == hkdf_expand_spec(hkdf_extract_spec(Some(SALT@), entropy@), INFO_AES@, 32)
            &&& id@ == sha256_spec(hkdf_expand_spec(hkdf_extract_spec(Some(SALT@), entropy@), INFO_ID@, 32))
        },
{
    let prk = hkdf::extract(&SALT, entropy);
    let key_bytes = hkdf::expand(&prk, &INFO_AES, aead::KEY_LEN)?;
    let aes_key = to_array32(key_bytes.as_slice());
    let id_bytes = hkdf::expand(&prk, &INFO_ID, 32)?;
    let lookup_id = sha256(id_bytes.as_slice());
    Ok((aes_key, lookup_id))
}

/// The relay lookup id for `entropy` (the storage key; hex-encode for the API).
pub fn lookup_id(entropy: &[u8]) -> (r: CoreResult<[u8; 32]>)
    ensures
        r matches Ok(id) && id@ == lookup_id_spec(entropy@),
{
    Ok(derive(entropy)?.1)
}

/// Build the deterministic drop packet from known `entropy`, `nonce` and
/// plaintext: `nonce || ct_len_be32 || AES-256-GCM(no AAD)`.
///
/// The length field holds the ciphertext length modulo 2^32. Errors with
/// [`CoreError::Aead`] exactly when the plaintext is longer than AES-GCM
/// seals (2^36 - 32 bytes).
pub fn seal(entropy: &[u8], nonce: &[u8; 12], plaintext: &[u8]) -> (r: CoreResult<Vec<u8>>)
    ensures
        r matches Ok(p) ==> {
            let c = aes_gcm_seal_spec(drop_key_spec(entropy@), nonce@, Seq::empty(), plaintext@);
            &&& c.len() == plaintext@.len() + 16
            &&& p@ == nonce@ + be32(c.len() as u32) + c
            &&& plaintext@.len() + 16 <= u32::MAX ==> sealed_drop(p@, entropy@, plaintext@)
        },
        r matches Err(e) ==> e == CoreError::Aead("encryption failed"),
        r is Ok <==> plaintext@.len() <= aead::MAX_PLAINTEXT_LEN,
{
    let (aes_key, _) = derive(entropy)?;
    let empty: [u8; 0] = [];
    let ct = aead::encrypt(&aes_key, nonce, &empty, plaintext)?;
    proof {
        assert(empty@ =~= Seq::<u8>::empty());
    }
    let mut packet: Vec<u8> = Vec::new();
    append_bytes(&mut packet, nonce);
    let len_bytes = u32_to_be(ct.len() as u32);
    append_bytes(&mut packet, &len_bytes);
    append_bytes(&mut packet, ct.as_slice());
    proof {
        let c = ct@;
        let p = packet@;
        assert(p.subrange(0, 12) =~= nonce@);
        assert(p.subrange(12, 16) =~= be32(c.len() as u32));
        if plaintext@.len() + 16 <= u32::MAX {
            crate::bytes::lemma_be32_roundtrip(c.len() as u32);
            assert(declared_len(p) == c.len());
            assert(p.subrange(16, 16 + c.len() as int) =~= c);
        }
    }
    Ok(packet)
}

/// Recover the plaintext from a drop packet (tolerating trailing padding) with
/// the BIP-39 `entropy`.
///
/// Errors with [`CoreError::Wire`] if the packet is truncated, and with
/// [`CoreError::Aead`] if the key (wrong mnemonic) or ciphertext does not
/// authenticate. A packet sealed under `entropy` opens to its plaintext,
/// whatever padding follows it.
pub fn open(entropy: &[u8], packet: &[u8]) -> (r: CoreResult<Vec<u8>>)
    ensures
        match open_spec(entropy@, packet@) {
            Ok(p) => r matches Ok(v) && v@ == p,
            Err(e) => r matches Err(x) && x == e,
        },
        forall|p: Seq<u8>|
            #[trigger] sealed_drop(packet@, entropy@, p) ==> (r matches Ok(v) && v@ == p),
{
    if packet.len() < NONCE_SIZE + LEN_PREFIX {
        return Err(CoreError::Wire("drop packet shorter than header"));
    }
    let nonce: [u8; 12] = [
        packet[0], packet[1], packet[2], packet[3], packet[4], packet[5],
        packet[6], packet[7], packet[8], packet[9], packet[10], packet[11],
    ];
    let ct_len = crate::bytes::read_be32(packet, NONCE_SIZE) as usize;
    let start: usize = NONCE_SIZE + LEN_PREFIX;
    let end = match start.checked_add(ct_len) {
        Some(e) => e,
        None => { return Err(CoreError::Wire("ct_len overflow")) },
    };
    if end > packet.len() {
        return Err(CoreError::Wire("ct_len exceeds packet"));
    }
    let ct = slice_subrange(packet, start, end);
    let (aes_key, _) = derive(entropy)?;
    let empty: [u8; 0] = [];
    proof {
        assert(empty@ =~= Seq::<u8>::empty());
        assert(nonce@ =~= packet@.subrange(0, 12));
        assert(ct_len == declared_len(packet@));
    }
    aead::decrypt(&aes_key, &nonce, &empty, ct)
}

/// Drop `plaintext`: generate a fresh 12-word mnemonic, seal the packet, and
/// pad it to `pad_block`. Returns the mnemonic (to share out of band) and the blob.
///
/// Errors with [`CoreError::Mnemonic`] if the entropy cannot be drawn, with
/// [`CoreError::Wire`] if the packet exceeds `pad_block` (or the nonce or
/// padding cannot be drawn), and with [`CoreError::Aead`] if the encryption fails.
pub fn drop(plaintext: &[u8], pad_block: usize) -> (r: CoreResult<(Mnemonic, Vec<u8>)>)
    ensures
        r matches Ok((m, blob)) ==> {
            &&& m@.len() == ENTROPY_LEN
            &&& blob@.len() == pad_block
            &&& plaintext@.len() + 16 <= u32::MAX ==> sealed_drop(blob@, m@, plaintext@)
        },
        plaintext@.len() + 32 > pad_block ==> r is Err,
        r matches Err(e) ==> e == CoreError::Mnemonic("entropy RNG failure") || e == CoreError::Wire(
            "nonce RNG failure",
        ) || (e == CoreError::Aead("encryption failed") && plaintext@.len() > aead::MAX_PLAINTEXT_LEN) || e == CoreError::Wire(
            "encoded core larger than pad_block",
        ) || e == CoreError::Wire("padding RNG failure"),
{
    let e = match system_random(ENTROPY_LEN) {
        Some(e) => e,
        None => { return Err(CoreError::Mnemonic("entropy RNG failure")) },
    };
    let entropy: [u8; 16] = [
        e[0], e[1], e[2], e[3], e[4], e[5], e[6], e[7],
        e[8], e[9], e[10], e[11], e[12], e[13], e[14], e[15],
    ];
    let mnemonic = Mnemonic::generate_from_entropy(entropy)?;
    let nonce = match random_nonce() {
        Some(n) => n,
        None => { return Err(CoreError::Wire("nonce RNG failure")) },
    };
    let packet = seal(&entropy, &nonce, plaintext)?;
    let ghost core = packet@;
    let blob = pad_to_block(packet, pad_block)?;
    proof {
        if plaintext@.len() + 16 <= u32::MAX {
            let padding = blob@.subrange(core.len() as int, blob@.len() as int);
            assert(blob@ =~= core + padding);
            lemma_sealed_drop_ignores_padding(core, padding, entropy@, plaintext@);
        }
    }
    Ok((mnemonic, blob))
}

/// Pick up a drop: derive the entropy from `mnemonic` and open the blob.
pub fn pickup(mnemonic: &Mnemonic, blob: &[u8]) -> (r: CoreResult<Vec<u8>>)
    ensures
        match open_spec(mnemonic@, blob@) {
            Ok(p) => r matches Ok(v) && v@ == p,
            Err(e) => r matches Err(x) && x == e,
        },
        forall|p: Seq<u8>|
            #[trigger] sealed_drop(blob@, mnemonic@, p) ==> (r matches Ok(v) && v@ == p),
{
    let entropy = mnemonic.to_entropy();
    open(entropy.as_slice(), blob)
}

} // verus!
