//! ECDH P-256 key exchange (RustCrypto `p256`).
//!
//! A keypair holds its secret scalar (big-endian, in `[1, n)`) and its SEC1
//! uncompressed public point; the agreement is the x-coordinate of the
//! scalar times the peer's point.

use p256::elliptic_curve::sec1::ToEncodedPoint;
use p256::{EncodedPoint, PublicKey, SecretKey};
use vstd::prelude::*;
use vstd::string::StringExecFns;

use crate::bytes::to_array32;
use crate::crypto::entropy::os_random;
use crate::error::{ParamantError, ParamantResult};

verus! {

/// Length of a SEC1 uncompressed P-256 point, in bytes.
pub const PUBLIC_KEY_LEN: usize = 65;

/// Whether `scalar` is a P-256 secret scalar (big-endian, nonzero, below the order).
pub uninterp spec fn p256_scalar_valid(scalar: Seq<u8>) -> bool;

/// The SEC1 uncompressed public point of a secret scalar.
pub uninterp spec fn p256_public_spec(scalar: Seq<u8>) -> Seq<u8>;

/// Whether `bytes` is a SEC1 encoding of a point on P-256.
pub uninterp spec fn p256_sec1_valid(bytes: Seq<u8>) -> bool;

/// The raw ECDH shared secret (x-coordinate) of a scalar and a peer point.
pub uninterp spec fn p256_dh_spec(scalar: Seq<u8>, peer: Seq<u8>) -> Seq<u8>;

/// Whether `SecretKey::from_slice` accepts the 32 bytes: the named validity
/// of the scalar.
#[verifier::external_body]
fn p256_scalar_check(scalar: &[u8; 32]) -> (r: bool)
    ensures
        r == p256_scalar_valid(scalar@),
{
    SecretKey::from_slice(scalar).is_ok()
}

/// `SecretKey::from_slice` of a valid scalar, `public_key`, and its SEC1
/// encoding (`EncodedPoint::from`, uncompressed for P-256): the named point,
/// 65 bytes, which is itself a valid SEC1 encoding.
#[verifier::external_body]
fn p256_public(scalar: &[u8; 32]) -> (r: Vec<u8>)
    requires
        p256_scalar_valid(scalar@),
    ensures
        r@ == p256_public_spec(scalar@),
        r@.len() == PUBLIC_KEY_LEN,
        p256_sec1_valid(r@),
{
    let secret = SecretKey::from_slice(scalar).unwrap();
    EncodedPoint::from(secret.public_key()).as_bytes().to_vec()
}

/// `PublicKey::from_sec1_bytes` then `p256::ecdh::diffie_hellman` with the
/// scalar of a valid secret key, and `raw_secret_bytes`: `None` exactly when
/// the peer's bytes are not a valid point; otherwise the named 32-byte secret.
/// Diffie-Hellman is symmetric: when the peer's point is that of a valid
/// scalar `other`, the result is the agreement of `other` with our point.
#[verifier::external_body]
fn p256_dh(scalar: &[u8; 32], their_public_key: &[u8]) -> (r: Option<Vec<u8>>)
    requires
        p256_scalar_valid(scalar@),
    ensures
        r is Some <==> p256_sec1_valid(their_public_key@),
        r matches Some(z) ==> z@ == p256_dh_spec(scalar@, their_public_key@) && z@.len() == 32,
        forall|other: Seq<u8>|
            p256_scalar_valid(other) && #[trigger] p256_public_spec(other) == their_public_key@ ==> (r
                is Some && r.unwrap()@ == p256_dh_spec(other, p256_public_spec(scalar@))),
{
    let secret = SecretKey::from_slice(scalar).unwrap();
    match PublicKey::from_sec1_bytes(their_public_key) {
        Ok(pk) => Some(
            p256::ecdh::diffie_hellman(secret.to_nonzero_scalar(), pk.as_affine()).raw_secret_bytes().to_vec(),
        ),
        Err(_) => None,
    }
}

/// An ECDH P-256 keypair.
pub struct EcdhKeyPair {
    secret: [u8; 32],
    public_key_bytes: Vec<u8>,
}

/// Draw a P-256 secret scalar by rejection sampling: 32 bytes from the
/// operating system, kept when they are a valid scalar (nonzero, below the
/// order), tried up to 64 times.
///
/// Errors with [`ParamantError::Ecdh`] if the generator fails or no valid
/// scalar was drawn.
fn random_scalar() -> (r: ParamantResult<[u8; 32]>)
    ensures
        r matches Ok(s) ==> p256_scalar_valid(s@),
        r matches Err(e) ==> e is Ecdh,
{
    let mut attempt: usize = 0;
    while attempt < 64
        invariant
            attempt <= 64,
        decreases 64 - attempt,
    {
        let drawn = match os_random(32) {
            Some(d) => d,
            None => { return Err(ParamantError::Ecdh(String::from_str("system RNG failure"))) },
        };
        let scalar = to_array32(drawn.as_slice());
        if p256_scalar_check(&scalar) {
            return Ok(scalar);
        }
        attempt = attempt + 1;
    }
    Err(ParamantError::Ecdh(String::from_str("no valid scalar drawn")))
}

/// A raw ECDH shared secret (the 32-byte x-coordinate).
pub struct EcdhShared(pub Vec<u8>);

impl View for EcdhKeyPair {
    type V = Seq<u8>;

    /// The public point.
    closed spec fn view(&self) -> Seq<u8> {
        self.public_key_bytes@
    }
}

impl EcdhKeyPair {
    #[verifier::type_invariant]
    closed spec fn inv(self) -> bool {
        &&& p256_scalar_valid(self.secret@)
        &&& self.public_key_bytes@ == p256_public_spec(self.secret@)
        &&& self.public_key_bytes@.len() == PUBLIC_KEY_LEN
        &&& p256_sec1_valid(self.public_key_bytes@)
    }

    /// The secret scalar.
    pub closed spec fn secret_scalar(&self) -> Seq<u8> {
        self.secret@
    }

    /// Borrow the SEC1 uncompressed public point.
    pub fn public_key(&self) -> (r: &[u8])
        ensures
            r@ == self@,
            r@.len() == PUBLIC_KEY_LEN,
            r@ == p256_public_spec(self.secret_scalar()),
            p256_scalar_valid(self.secret_scalar()),
    {
        proof {
            use_type_invariant(self);
        }
        self.public_key_bytes.as_slice()
    }

    /// Generate a fresh keypair from the operating-system generator.
    ///
    /// Errors with [`ParamantError::Ecdh`] if the generator fails.
    pub fn generate() -> (r: ParamantResult<Self>)
        ensures
            r matches Ok(k) ==> k@.len() == PUBLIC_KEY_LEN && p256_scalar_valid(k.secret_scalar())
                && k@ == p256_public_spec(k.secret_scalar()),
            r matches Err(e) ==> e is Ecdh,
    {
        let secret = random_scalar()?;
        let public_key_bytes = p256_public(&secret);
        Ok(EcdhKeyPair { secret, public_key_bytes })
    }

    /// Agree on a shared secret with the holder of `their_public_key`.
    ///
    /// Errors with [`ParamantError::InvalidKey`] exactly when the bytes are not
    /// a SEC1 encoding of a P-256 point. Both sides of an exchange agree on
    /// the same secret.
    pub fn diffie_hellman(&self, their_public_key: &[u8]) -> (r: ParamantResult<EcdhShared>)
        ensures
            r is Ok <==> p256_sec1_valid(their_public_key@),
            r matches Ok(s) ==> s.0@ == p256_dh_spec(self.secret_scalar(), their_public_key@)
                && s.0@.len() == 32,
            r matches Err(e) ==> e is InvalidKey,
            forall|other: Seq<u8>|
                p256_scalar_valid(other) && #[trigger] p256_public_spec(other) == their_public_key@
                    ==> (r matches Ok(s) && s.0@ == p256_dh_spec(other, self@)),
    {
        proof {
            use_type_invariant(self);
        }
        match p256_dh(&self.secret, their_public_key) {
            Some(s) => Ok(EcdhShared(s)),
            None => Err(ParamantError::InvalidKey(String::from_str("Ongeldige ECDH public key"))),
        }
    }
}

} // verus!
