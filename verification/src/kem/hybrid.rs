//! Hybrid KEM: ML-KEM-768 ⊕ ECDH P-256.
//!
//! The shared secret is derived from both a post-quantum (ML-KEM-768) and a
//! classical (ECDH P-256) KEM, so it stays secure as long as either holds.
//! The combiner follows `draft-ietf-tls-hybrid-design`:
//!
//! ```text
//! ss = HKDF-Extract( salt = ml_kem_ct ‖ ecdh_ephemeral_pub,
//!                    ikm  = ml_kem_ss ‖ ecdh_ss )            // HMAC-SHA-256, 32 bytes
//! ```
//!
//! Wire layout: a public key is `ml_kem_pk ‖ ecdh_pub` (SEC1 uncompressed), a
//! secret key is `ml_kem_sk ‖ ecdh_scalar`, a ciphertext is
//! `ml_kem_ct ‖ ecdh_ephemeral_pub`. ECDH is provided by AWS-LC. The ML-KEM
//! half is computed by the caller: [`keygen`], [`encaps`] and [`decaps`] take
//! the ML-KEM-768 keypair, encapsulation or decapsulated secret and do the rest.

use aws_lc_rs::agreement::{agree, PrivateKey, UnparsedPublicKey, ECDH_P256};
use vstd::prelude::*;
use vstd::slice::slice_subrange;

use crate::aead::opt_view;
use crate::bytes::{append_bytes, to_array32, to_vec};
use crate::error::{CoreError, CoreResult};
use crate::kdf::hkdf::{hkdf_extract_raw, hkdf_extract_spec};
use crate::kem;
use crate::random::system_random;

verus! {

/// ECDH P-256 scalar length (big-endian), in bytes.
pub const ECDH_SCALAR_LEN: usize = 32;
/// ECDH P-256 public point length (SEC1 uncompressed, `0x04‖X‖Y`), in bytes.
pub const ECDH_POINT_LEN: usize = 65;
/// Hybrid public key length: ML-KEM-768 public key ‖ ECDH P-256 point.
pub const PUBLIC_KEY_LEN: usize = 1249;
/// Hybrid secret key length: ML-KEM-768 secret key ‖ ECDH P-256 scalar.
pub const SECRET_KEY_LEN: usize = 2432;
/// Hybrid ciphertext length: ML-KEM-768 ciphertext ‖ ECDH ephemeral point.
pub const CIPHERTEXT_LEN: usize = 1153;
/// Hybrid shared-secret length, in bytes.
pub const SHARED_SECRET_LEN: usize = 32;

/// Whether `scalar` is a valid P-256 private key (big-endian, in `[1, n)`).
pub uninterp spec fn p256_valid_scalar(scalar: Seq<u8>) -> bool;

/// The SEC1 uncompressed P-256 public point of `scalar`, or `None` when AWS-LC
/// rejects the scalar or cannot derive the point.
pub uninterp spec fn p256_public_spec(scalar: Seq<u8>) -> Option<Seq<u8>>;

/// The raw P-256 ECDH shared secret (the x-coordinate) of `scalar` with the
/// peer point `peer`, or `None` when either is rejected.
pub uninterp spec fn p256_agree_spec(scalar: Seq<u8>, peer: Seq<u8>) -> Option<Seq<u8>>;

/// `aws_lc_rs::agreement::PrivateKey::from_private_key(&ECDH_P256, ..)`
/// succeeds: the named validity of the scalar. A scalar whose public point
/// can be derived is valid.
#[verifier::external_body]
fn ecdh_scalar_valid(scalar: &[u8]) -> (r: bool)
    ensures
        r == p256_valid_scalar(scalar@),
        p256_public_spec(scalar@) is Some ==> r,
{
    PrivateKey::from_private_key(&ECDH_P256, scalar).is_ok()
}

/// `PrivateKey::from_private_key(&ECDH_P256, ..)` then `compute_public_key`:
/// the named SEC1 uncompressed point, 65 bytes long.
#[verifier::external_body]
fn ecdh_public(scalar: &[u8]) -> (r: Option<Vec<u8>>)
    ensures
        opt_view(r) == p256_public_spec(scalar@),
        r matches Some(p) ==> p@.len() == ECDH_POINT_LEN,
{
    let key = match PrivateKey::from_private_key(&ECDH_P256, scalar) {
        Ok(k) => k,
        Err(_) => return None,
    };
    match key.compute_public_key() {
        Ok(p) => Some(p.as_ref().to_vec()),
        Err(_) => None,
    }
}

/// `aws_lc_rs::agreement::agree` of the private key of `scalar` with the
/// P-256 point `peer_pub`: the named 32-byte shared secret. Diffie-Hellman
/// agreement is symmetric: when `peer_pub` is the point of a scalar `other`
/// and `scalar` has a point, the agreement succeeds and equals the agreement
/// of `other` with that point.
#[verifier::external_body]
fn ecdh_agree(scalar: &[u8], peer_pub: &[u8]) -> (r: Option<Vec<u8>>)
    ensures
        opt_view(r) == p256_agree_spec(scalar@, peer_pub@),
        r matches Some(z) ==> z@.len() == 32,
        forall|other: Seq<u8>|
            #[trigger] p256_public_spec(other) == Some(peer_pub@) && p256_public_spec(scalar@) is Some
                ==> (r is Some && opt_view(r) == p256_agree_spec(
                other,
                p256_public_spec(scalar@).unwrap(),
            )),
{
    let key = match PrivateKey::from_private_key(&ECDH_P256, scalar) {
        Ok(k) => k,
        Err(_) => return None,
    };
    agree(&key, UnparsedPublicKey::new(&ECDH_P256, peer_pub), (), |secret| Ok(secret.to_vec())).ok()
}

/// The hybrid shared secret: HKDF-Extract with salt `kem_ct ‖ eph_pub` over
/// `kem_ss ‖ ecdh_ss`.
pub open spec fn combine_spec(kem_ct: Seq<u8>, eph_pub: Seq<u8>, kem_ss: Seq<u8>, ecdh_ss: Seq<u8>) -> Seq<u8> {
    hkdf_extract_spec(Some(kem_ct + eph_pub), kem_ss + ecdh_ss)
}

/// The ECDH point of a hybrid public key.
pub open spec fn pk_point(pk: Seq<u8>) -> Seq<u8> {
    pk.subrange(1184, 1249)
}

/// The ECDH scalar of a hybrid secret key.
pub open spec fn sk_scalar(sk: Seq<u8>) -> Seq<u8> {
    sk.subrange(2400, 2432)
}

/// `pk` and `sk` form a hybrid keypair: the ECDH point of `pk` is the point of
/// the scalar in `sk`.
pub open spec fn hybrid_keypair(pk: Seq<u8>, sk: Seq<u8>) -> bool {
    &&& pk.len() == PUBLIC_KEY_LEN
    &&& sk.len() == SECRET_KEY_LEN
    &&& p256_public_spec(sk_scalar(sk)) == Some(pk_point(pk))
}

/// What encapsulating to `pk` with the ML-KEM result (`kem_ct`, `kem_ss`) and
/// the ephemeral scalar `eph` gives: the ciphertext and the shared secret.
pub open spec fn encaps_spec(pk: Seq<u8>, kem_ct: Seq<u8>, kem_ss: Seq<u8>, eph: Seq<u8>) -> Result<
    (Seq<u8>, Seq<u8>),
    CoreError,
> {
    match p256_public_spec(eph) {
        None => Err(CoreError::Kem("ECDH public key derivation failed")),
        Some(eph_pub) => match p256_agree_spec(eph, pk_point(pk)) {
            None => Err(CoreError::Kem("ECDH agreement failed")),
            Some(z) => Ok((kem_ct + eph_pub, combine_spec(kem_ct, eph_pub, kem_ss, z))),
        },
    }
}

/// What decapsulating `ct` with `sk` and the decapsulated ML-KEM secret gives.
pub open spec fn decaps_spec(sk: Seq<u8>, ct: Seq<u8>, kem_ss: Seq<u8>) -> Result<Seq<u8>, CoreError> {
    if !p256_valid_scalar(sk_scalar(sk)) {
        Err(CoreError::Kem("invalid ECDH scalar"))
    } else {
        match p256_agree_spec(sk_scalar(sk), ct.subrange(1088, 1153)) {
            None => Err(CoreError::Kem("ECDH agreement failed")),
            Some(z) => Ok(combine_spec(ct.subrange(0, 1088), ct.subrange(1088, 1153), kem_ss, z)),
        }
    }
}

/// A hybrid public key (`ml_kem_pk ‖ ecdh_pub`).
#[derive(PartialEq, Eq)]
pub struct HybridPublicKey(Vec<u8>);

/// A hybrid secret key (`ml_kem_sk ‖ ecdh_scalar`).
pub struct HybridSecretKey(Vec<u8>);

/// A hybrid ciphertext (`ml_kem_ct ‖ ecdh_ephemeral_pub`).
#[derive(PartialEq, Eq)]
pub struct HybridCiphertext(Vec<u8>);

/// A hybrid shared secret.
pub struct HybridSharedSecret(Vec<u8>);

impl View for HybridPublicKey {
    type V = Seq<u8>;

    closed spec fn view(&self) -> Seq<u8> {
        self.0@
    }
}

impl View for HybridSecretKey {
    type V = Seq<u8>;

    closed spec fn view(&self) -> Seq<u8> {
        self.0@
    }
}

impl View for HybridCiphertext {
    type V = Seq<u8>;

    closed spec fn view(&self) -> Seq<u8> {
        self.0@
    }
}

impl View for HybridSharedSecret {
    type V = Seq<u8>;

    closed spec fn view(&self) -> Seq<u8> {
        self.0@
    }
}

impl HybridPublicKey {
    #[verifier::type_invariant]
    closed spec fn inv(self) -> bool {
        self.0@.len() == PUBLIC_KEY_LEN
    }

    /// Borrow the key as bytes.
    pub fn as_bytes(&self) -> (r: &[u8])
        ensures
            r@ == self@,
            r@.len() == PUBLIC_KEY_LEN,
    {
        proof {
            use_type_invariant(self);
        }
        self.0.as_slice()
    }

    /// Build from bytes, validating the length.
    ///
    /// Errors with [`CoreError::InvalidLength`] if `bytes` is not [`PUBLIC_KEY_LEN`] long.
    pub fn from_bytes(bytes: &[u8]) -> (r: CoreResult<Self>)
        ensures
            bytes@.len() == PUBLIC_KEY_LEN ==> (r matches Ok(k) && k@ == bytes@),
            bytes@.len() != PUBLIC_KEY_LEN ==> r == Err::<Self, CoreError>(
                CoreError::InvalidLength { expected: PUBLIC_KEY_LEN, got: bytes@.len() as usize },
            ),
    {
        kem::check_len(bytes.len(), PUBLIC_KEY_LEN)?;
        Ok(HybridPublicKey(to_vec(bytes)))
    }

    /// The ML-KEM-768 public key this hybrid key begins with, to encapsulate to.
    pub fn kem_public_key(&self) -> (r: kem::PublicKey)
        ensures
            r@ == self@.subrange(0, 1184),
    {
        proof {
            use_type_invariant(self);
        }
        kem::PublicKey::from_bytes(slice_subrange(self.0.as_slice(), 0, kem::PUBLIC_KEY_LEN)).unwrap()
    }
}

impl HybridCiphertext {
    #[verifier::type_invariant]
    closed spec fn inv(self) -> bool {
        self.0@.len() == CIPHERTEXT_LEN
    }

    /// Borrow the ciphertext as bytes.
    pub fn as_bytes(&self) -> (r: &[u8])
        ensures
            r@ == self@,
            r@.len() == CIPHERTEXT_LEN,
    {
        proof {
            use_type_invariant(self);
        }
        self.0.as_slice()
    }

    /// Build from bytes, validating the length.
    ///
    /// Errors with [`CoreError::InvalidLength`] if `bytes` is not [`CIPHERTEXT_LEN`] long.
    pub fn from_bytes(bytes: &[u8]) -> (r: CoreResult<Self>)
        ensures
            bytes@.len() == CIPHERTEXT_LEN ==> (r matches Ok(k) && k@ == bytes@),
            bytes@.len() != CIPHERTEXT_LEN ==> r == Err::<Self, CoreError>(
                CoreError::InvalidLength { expected: CIPHERTEXT_LEN, got: bytes@.len() as usize },
            ),
    {
        kem::check_len(bytes.len(), CIPHERTEXT_LEN)?;
        Ok(HybridCiphertext(to_vec(bytes)))
    }
}

impl HybridSecretKey {
    #[verifier::type_invariant]
    closed spec fn inv(self) -> bool {
        self.0@.len() == SECRET_KEY_LEN
    }

    /// Borrow the key as bytes. Handle with care.
    pub fn as_bytes(&self) -> (r: &[u8])
        ensures
            r@ == self@,
            r@.len() == SECRET_KEY_LEN,
    {
        proof {
            use_type_invariant(self);
        }
        self.0.as_slice()
    }

    /// Build from bytes, validating the length.
    ///
    /// Errors with [`CoreError::InvalidLength`] if `bytes` is not [`SECRET_KEY_LEN`] long.
    pub fn from_bytes(bytes: &[u8]) -> (r: CoreResult<Self>)
        ensures
            bytes@.len() == SECRET_KEY_LEN ==> (r matches Ok(k) && k@ == bytes@),
            bytes@.len() != SECRET_KEY_LEN ==> r == Err::<Self, CoreError>(
                CoreError::InvalidLength { expected: SECRET_KEY_LEN, got: bytes@.len() as usize },
            ),
    {
        kem::check_len(bytes.len(), SECRET_KEY_LEN)?;
        Ok(HybridSecretKey(to_vec(bytes)))
    }
}

impl HybridSharedSecret {
    /// Borrow the shared secret as bytes. Handle with care.
    pub fn as_bytes(&self) -> (r: &[u8])
        ensures
            r@ == self@,
    {
        self.0.as_slice()
    }
}

/// HKDF-Extract(SHA-256) over the concatenated ciphertexts (salt) and shared
/// secrets (ikm), per draft-ietf-tls-hybrid-design.
fn combine(kem_ct: &[u8], eph_pub: &[u8], kem_ss: &[u8], ecdh_ss: &[u8]) -> (r: [u8; 32])
    ensures
        r@ == combine_spec(kem_ct@, eph_pub@, kem_ss@, ecdh_ss@),
{
    let mut salt: Vec<u8> = Vec::new();
    append_bytes(&mut salt, kem_ct);
    append_bytes(&mut salt, eph_pub);
    let mut ikm: Vec<u8> = Vec::new();
    append_bytes(&mut ikm, kem_ss);
    append_bytes(&mut ikm, ecdh_ss);
    hkdf_extract_raw(Some(salt.as_slice()), ikm.as_slice())
}

/// Draw a fresh ECDH P-256 private scalar that AWS-LC accepts, trying up to
/// eight times.
///
/// Errors with [`CoreError::Kem`] if the system generator fails or no valid
/// scalar was drawn.
fn ecdh_keygen() -> (r: CoreResult<[u8; 32]>)
    ensures
        r matches Ok(s) ==> p256_valid_scalar(s@),
        r matches Err(e) ==> e == CoreError::Kem("RNG failure") || e == CoreError::Kem(
            "ECDH key generation failed",
        ),
{
    let mut attempt: usize = 0;
    while attempt < 8
        invariant
            attempt <= 8,
        decreases 8 - attempt,
    {
        let drawn = match system_random(ECDH_SCALAR_LEN) {
            Some(s) => s,
            None => { return Err(CoreError::Kem("RNG failure")) },
        };
        let scalar = to_array32(drawn.as_slice());
        if ecdh_scalar_valid(&scalar) {
            return Ok(scalar);
        }
        attempt = attempt + 1;
    }
    Err(CoreError::Kem("ECDH key generation failed"))
}

/// Assemble a hybrid keypair from an ML-KEM-768 keypair and an ECDH scalar.
///
/// Errors with [`CoreError::Kem`] exactly when no public point can be derived
/// from `ecdh_scalar`.
pub fn keypair_from_parts(kem_pk: &kem::PublicKey, kem_sk: &kem::SecretKey, ecdh_scalar: &[u8; 32]) -> (r:
    CoreResult<(HybridPublicKey, HybridSecretKey)>)
    ensures
        match p256_public_spec(ecdh_scalar@) {
            None => r == Err::<(HybridPublicKey, HybridSecretKey), CoreError>(
                CoreError::Kem("ECDH public key derivation failed"),
            ),
            Some(point) => r matches Ok((pk, sk)) && pk@ == kem_pk@ + point && sk@ == kem_sk@
                + ecdh_scalar@ && hybrid_keypair(pk@, sk@) && pk@.subrange(0, 1184) == kem_pk@
                && sk@.subrange(0, 2400) == kem_sk@,
        },
{
    let point = match ecdh_public(ecdh_scalar) {
        Some(p) => p,
        None => { return Err(CoreError::Kem("ECDH public key derivation failed")) },
    };
    let kem_pk_bytes = kem_pk.as_bytes();
    let kem_sk_bytes = kem_sk.as_bytes();
    let mut pk: Vec<u8> = Vec::new();
    append_bytes(&mut pk, kem_pk_bytes);
    append_bytes(&mut pk, point.as_slice());
    let mut sk: Vec<u8> = Vec::new();
    append_bytes(&mut sk, kem_sk_bytes);
    append_bytes(&mut sk, ecdh_scalar);
    proof {
        assert(pk_point(pk@) =~= point@);
        assert(sk_scalar(sk@) =~= ecdh_scalar@);
        assert(pk@.subrange(0, 1184) =~= kem_pk@);
        assert(sk@.subrange(0, 2400) =~= kem_sk@);
    }
    Ok((HybridPublicKey(pk), HybridSecretKey(sk)))
}

/// Generate a hybrid keypair around an ML-KEM-768 keypair, drawing the ECDH
/// scalar from the system generator.
///
/// Errors with [`CoreError::Kem`] if the generator fails, AWS-LC rejects
/// every scalar drawn, or the public point cannot be derived.
pub fn keygen(kem_pk: &kem::PublicKey, kem_sk: &kem::SecretKey) -> (r: CoreResult<(HybridPublicKey, HybridSecretKey)>)
    ensures
        r matches Ok((pk, sk)) ==> hybrid_keypair(pk@, sk@) && pk@.subrange(0, 1184) == kem_pk@
            && sk@.subrange(0, 2400) == kem_sk@,
        r matches Err(e) ==> e == CoreError::Kem("RNG failure") || e == CoreError::Kem(
            "ECDH key generation failed",
        ) || e == CoreError::Kem("ECDH public key derivation failed"),
{
    let scalar = ecdh_keygen()?;
    let r = keypair_from_parts(kem_pk, kem_sk, &scalar);
    r
}

/// Encapsulate to `pk` with the ML-KEM-768 encapsulation (`kem_ct`, `kem_ss`)
/// made to `pk`'s ML-KEM key and the ephemeral ECDH scalar `eph_scalar`.
///
/// Errors with [`CoreError::Kem`] if no point can be derived from the scalar
/// or the agreement with `pk`'s point fails.
pub fn encaps_with_ephemeral(
    pk: &HybridPublicKey,
    kem_ct: &kem::Ciphertext,
    kem_ss: &kem::SharedSecret,
    eph_scalar: &[u8],
) -> (r: CoreResult<(HybridCiphertext, HybridSharedSecret)>)
    ensures
        match encaps_spec(pk@, kem_ct@, kem_ss@, eph_scalar@) {
            Ok((c, s)) => r matches Ok((ct, ss)) && ct@ == c && ss@ == s,
            Err(e) => r matches Err(x) && x == e,
        },
        r matches Ok((ct, ss)) ==> {
            &&& p256_public_spec(eph_scalar@) matches Some(eph_pub)
            &&& p256_agree_spec(eph_scalar@, pk@.subrange(1184, 1249)) matches Some(ecdh_ss)
            &&& ct@ == kem_ct@ + eph_pub
            &&& ss@ == hkdf_extract_spec(Some(kem_ct@ + eph_pub), kem_ss@ + ecdh_ss)
        },
{
    let eph_pub = match ecdh_public(eph_scalar) {
        Some(p) => p,
        None => { return Err(CoreError::Kem("ECDH public key derivation failed")) },
    };
    let pk_bytes = pk.as_bytes();
    let peer = slice_subrange(pk_bytes, kem::PUBLIC_KEY_LEN, PUBLIC_KEY_LEN);
    let ecdh_ss = match ecdh_agree(eph_scalar, peer) {
        Some(z) => z,
        None => { return Err(CoreError::Kem("ECDH agreement failed")) },
    };
    let kem_ct_bytes = kem_ct.as_bytes();
    let ss = combine(kem_ct_bytes, eph_pub.as_slice(), kem_ss.as_bytes(), ecdh_ss.as_slice());
    let mut ct: Vec<u8> = Vec::new();
    append_bytes(&mut ct, kem_ct_bytes);
    append_bytes(&mut ct, eph_pub.as_slice());
    Ok((HybridCiphertext(ct), HybridSharedSecret(to_vec(&ss))))
}

/// Encapsulate to `pk` with the ML-KEM-768 encapsulation (`kem_ct`, `kem_ss`)
/// made to `pk`'s ML-KEM key, drawing a fresh ephemeral ECDH key.
///
/// Errors with [`CoreError::Kem`] if the generator fails, AWS-LC rejects every
/// scalar drawn, or the agreement with `pk`'s point fails.
pub fn encaps(pk: &HybridPublicKey, kem_ct: &kem::Ciphertext, kem_ss: &kem::SharedSecret) -> (r:
    CoreResult<(HybridCiphertext, HybridSharedSecret)>)
    ensures
        r matches Ok((ct, ss)) ==> exists|eph: Seq<u8>|
            #[trigger] encaps_spec(pk@, kem_ct@, kem_ss@, eph) == Ok::<(Seq<u8>, Seq<u8>), CoreError>(
                (ct@, ss@),
            ),
        r matches Ok((ct, ss)) ==> exists|eph_pub: Seq<u8>, ecdh_ss: Seq<u8>|
            {
                &&& ct@ == kem_ct@ + eph_pub
                &&& #[trigger] hkdf_extract_spec(Some(kem_ct@ + eph_pub), kem_ss@ + ecdh_ss) == ss@
            },
        r matches Err(e) ==> e == CoreError::Kem("RNG failure") || e == CoreError::Kem(
            "ECDH key generation failed",
        ) || e == CoreError::Kem("ECDH public key derivation failed") || e == CoreError::Kem(
            "ECDH agreement failed",
        ),
{
    let eph_scalar = ecdh_keygen()?;
    let r = encaps_with_ephemeral(pk, kem_ct, kem_ss, &eph_scalar);
    assert(r matches Ok((ct, ss)) ==> encaps_spec(pk@, kem_ct@, kem_ss@, eph_scalar@) == Ok::<
        (Seq<u8>, Seq<u8>),
        CoreError,
    >((ct@, ss@)));
    proof {
        if r is Ok {
            let eph_pub = p256_public_spec(eph_scalar@).unwrap();
            let ecdh_ss = p256_agree_spec(eph_scalar@, pk@.subrange(1184, 1249)).unwrap();
            assert(hkdf_extract_spec(Some(kem_ct@ + eph_pub), kem_ss@ + ecdh_ss) == r->Ok_0.1@);
        }
    }
    r
}

/// Decapsulate `ct` with `sk` and the ML-KEM-768 secret decapsulated from
/// `ct`'s ML-KEM ciphertext with `sk`'s ML-KEM key.
///
/// Errors with [`CoreError::Kem`] if `sk`'s scalar is not a valid P-256 key
/// or the agreement with `ct`'s ephemeral point fails. For a keypair, what
/// [`encaps`] shared is what comes back.
pub fn decaps(sk: &HybridSecretKey, ct: &HybridCiphertext, kem_ss: &kem::SharedSecret) -> (r: CoreResult<
    HybridSharedSecret,
>)
    ensures
        match decaps_spec(sk@, ct@, kem_ss@) {
            Ok(s) => r matches Ok(ss) && ss@ == s,
            Err(e) => r matches Err(x) && x == e,
        },
        r matches Ok(ss) ==> {
            &&& p256_agree_spec(sk@.subrange(2400, 2432), ct@.subrange(1088, 1153)) matches Some(ecdh_ss)
            &&& ss@ == hkdf_extract_spec(Some(ct@), kem_ss@ + ecdh_ss)
        },
        forall|pk: Seq<u8>, kem_ct: Seq<u8>, eph: Seq<u8>|
            hybrid_keypair(pk, sk@) && kem_ct.len() == 1088 && (#[trigger] encaps_spec(
                pk,
                kem_ct,
                kem_ss@,
                eph,
            )) is Ok && encaps_spec(pk, kem_ct, kem_ss@, eph)->Ok_0.0 == ct@ ==> (r matches Ok(ss)
                && ss@ == encaps_spec(pk, kem_ct, kem_ss@, eph)->Ok_0.1),
{
    let sk_bytes = sk.as_bytes();
    let ct_bytes = ct.as_bytes();
    let scalar = slice_subrange(sk_bytes, kem::SECRET_KEY_LEN, SECRET_KEY_LEN);
    let kem_ct_bytes = slice_subrange(ct_bytes, 0, kem::CIPHERTEXT_LEN);
    let eph_pub = slice_subrange(ct_bytes, kem::CIPHERTEXT_LEN, CIPHERTEXT_LEN);
    if !ecdh_scalar_valid(scalar) {
        return Err(CoreError::Kem("invalid ECDH scalar"));
    }
    let agreed = ecdh_agree(scalar, eph_pub);
    proof {
        assert forall|pk: Seq<u8>, kem_ct: Seq<u8>, eph: Seq<u8>|
            hybrid_keypair(pk, sk@) && kem_ct.len() == 1088 && (#[trigger] encaps_spec(
                pk,
                kem_ct,
                kem_ss@,
                eph,
            )) is Ok && encaps_spec(pk, kem_ct, kem_ss@, eph)->Ok_0.0 == ct@ implies agreed is Some
            && opt_view(agreed) == p256_agree_spec(eph, pk_point(pk)) && Some(eph_pub@)
            == p256_public_spec(eph) && kem_ct_bytes@ == kem_ct by {
            let point = p256_public_spec(eph).unwrap();
            assert(ct@ == kem_ct + point);
            assert(ct@.subrange(1088, 1153) =~= point);
            assert(ct@.subrange(0, 1088) =~= kem_ct);
            assert(p256_public_spec(eph) == Some(eph_pub@));
            assert(p256_public_spec(scalar@) == Some(pk_point(pk)));
        }
    }
    let ecdh_ss = match agreed {
        Some(z) => z,
        None => { return Err(CoreError::Kem("ECDH agreement failed")) },
    };
    let ss = combine(kem_ct_bytes, eph_pub, kem_ss.as_bytes(), ecdh_ss.as_slice());
    proof {
        assert(kem_ct_bytes@ + eph_pub@ =~= ct@);
    }
    Ok(HybridSharedSecret(to_vec(&ss)))
}

} // verus!
