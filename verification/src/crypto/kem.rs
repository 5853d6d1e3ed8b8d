//! ML-KEM-768 key encapsulation through `pqcrypto-kyber` (Kyber768).

use pqcrypto_kyber::kyber768;
use rand_core::{OsRng, RngCore};
use pqcrypto_traits::kem::{Ciphertext, PublicKey, SecretKey, SharedSecret as PqSharedSecret};
use vstd::prelude::*;
use vstd::string::StringExecFns;

use crate::error::{ParamantError, ParamantResult};

verus! {

/// Length of a Kyber768 public key, in bytes.
pub const PUBLIC_KEY_LEN: usize = 1184;
/// Length of a Kyber768 secret key, in bytes.
pub const SECRET_KEY_LEN: usize = 2400;
/// Length of a Kyber768 ciphertext, in bytes.
pub const CIPHERTEXT_LEN: usize = 1088;
/// Length of a Kyber768 shared secret, in bytes.
pub const SHARED_SECRET_LEN: usize = 32;

/// The Kyber768 decapsulation of `ct` with the secret key `sk`.
pub uninterp spec fn kyber_decaps_spec(sk: Seq<u8>, ct: Seq<u8>) -> Seq<u8>;

/// `kyber768::keypair`: a fresh public and secret key of the standard
/// lengths (chance), or `None` when `OsRng::try_fill_bytes` reports the
/// operating system's generator failing just before the call.
///
/// The probe does not make this call panic-free: if the operating system's
/// generator fails partway through `kyber768::keypair`, that call panics
/// (pqcrypto-internals `expect`s its random bytes), and this wrapper panics
/// with it. pqcrypto-kyber offers no fallible form, so this contract does not
/// exclude that environmental failure.
#[verifier::external_body]
fn kyber_keypair() -> (r: Option<(Vec<u8>, Vec<u8>)>)
    ensures
        r matches Some((pk, sk)) ==> pk@.len() == PUBLIC_KEY_LEN && sk@.len() == SECRET_KEY_LEN,
{
    let mut probe = [0u8; 1];
    if OsRng.try_fill_bytes(&mut probe).is_err() {
        return None;
    }
    let (pk, sk) = kyber768::keypair();
    Some((pk.as_bytes().to_vec(), sk.as_bytes().to_vec()))
}

/// `kyber768::encapsulate` to a public key of the standard length: a fresh
/// ciphertext and shared secret of the standard lengths (both chance), or
/// `None` when `OsRng::try_fill_bytes` reports the operating system's
/// generator failing just before the call.
///
/// The probe does not make this call panic-free: if the operating system's
/// generator fails partway through `kyber768::encapsulate`, that call panics,
/// and this wrapper panics with it. pqcrypto-kyber offers no fallible form,
/// so this contract does not exclude that environmental failure.
#[verifier::external_body]
fn kyber_encapsulate(pk: &[u8]) -> (r: Option<(Vec<u8>, Vec<u8>)>)
    requires
        pk@.len() == PUBLIC_KEY_LEN,
    ensures
        r matches Some((ct, ss)) ==> ct@.len() == CIPHERTEXT_LEN && ss@.len() == SHARED_SECRET_LEN,
{
    let mut probe = [0u8; 1];
    if OsRng.try_fill_bytes(&mut probe).is_err() {
        return None;
    }
    let pk = kyber768::PublicKey::from_bytes(pk).unwrap();
    let (ss, ct) = kyber768::encapsulate(&pk);
    Some((ct.as_bytes().to_vec(), ss.as_bytes().to_vec()))
}

/// `kyber768::decapsulate` of a ciphertext with a secret key, both of the
/// standard lengths: the named 32-byte shared secret.
#[verifier::external_body]
fn kyber_decapsulate(sk: &[u8], ct: &[u8]) -> (r: Vec<u8>)
    requires
        sk@.len() == SECRET_KEY_LEN,
        ct@.len() == CIPHERTEXT_LEN,
    ensures
        r@ == kyber_decaps_spec(sk@, ct@),
        r@.len() == SHARED_SECRET_LEN,
{
    let sk = kyber768::SecretKey::from_bytes(sk).unwrap();
    let ct = kyber768::Ciphertext::from_bytes(ct).unwrap();
    kyber768::decapsulate(&ct, &sk).as_bytes().to_vec()
}

/// A Kyber768 keypair.
pub struct KemKeyPair {
    /// The public key.
    pub public_key: Vec<u8>,
    secret_key_bytes: Vec<u8>,
}

/// A KEM shared secret.
pub struct SharedSecret(pub Vec<u8>);

impl View for KemKeyPair {
    type V = Seq<u8>;

    /// The public key.
    closed spec fn view(&self) -> Seq<u8> {
        self.public_key@
    }
}

impl KemKeyPair {
    /// Borrow the public key.
    pub fn public_key(&self) -> (r: &[u8])
        ensures
            r@ == self@,
    {
        self.public_key.as_slice()
    }

    /// The secret key's bytes.
    pub closed spec fn secret_key(&self) -> Seq<u8> {
        self.secret_key_bytes@
    }

    /// Generate a fresh keypair.
    ///
    /// Errors with [`ParamantError::Kem`] if the system generator fails.
    pub fn generate() -> (r: ParamantResult<Self>)
        ensures
            r matches Ok(k) ==> k@.len() == PUBLIC_KEY_LEN && k.secret_key().len() == SECRET_KEY_LEN,
            r matches Err(e) ==> e is Kem,
    {
        match kyber_keypair() {
            Some((public_key, secret_key_bytes)) => Ok(KemKeyPair { public_key, secret_key_bytes }),
            None => Err(ParamantError::Kem(String::from_str("system RNG failure"))),
        }
    }

    /// Recover the shared secret from `ciphertext`.
    ///
    /// Errors with [`ParamantError::InvalidKey`] if the secret key, or
    /// [`ParamantError::Kem`] if the ciphertext, has the wrong length.
    pub fn decapsulate(&self, ciphertext: &[u8]) -> (r: ParamantResult<SharedSecret>)
        ensures
            self.secret_key().len() != SECRET_KEY_LEN ==> (r matches Err(e) && e is InvalidKey),
            self.secret_key().len() == SECRET_KEY_LEN && ciphertext@.len() != CIPHERTEXT_LEN
                ==> (r matches Err(e) && e is Kem),
            self.secret_key().len() == SECRET_KEY_LEN && ciphertext@.len() == CIPHERTEXT_LEN
                ==> (r matches Ok(s) && s.0@ == kyber_decaps_spec(self.secret_key(), ciphertext@)),
    {
        if self.secret_key_bytes.len() != SECRET_KEY_LEN {
            return Err(ParamantError::InvalidKey(String::from_str("Ongeldige KEM secret key")));
        }
        if ciphertext.len() != CIPHERTEXT_LEN {
            return Err(ParamantError::Kem(String::from_str("Ongeldige ciphertext")));
        }
        Ok(SharedSecret(kyber_decapsulate(self.secret_key_bytes.as_slice(), ciphertext)))
    }
}

/// Encapsulate a fresh shared secret to `public_key_bytes`, returning the
/// ciphertext and the secret.
///
/// Errors with [`ParamantError::InvalidKey`] exactly when the key has the
/// wrong length, and with [`ParamantError::Kem`] if the system generator fails.
pub fn encapsulate(public_key_bytes: &[u8]) -> (r: ParamantResult<(Vec<u8>, SharedSecret)>)
    ensures
        public_key_bytes@.len() != PUBLIC_KEY_LEN ==> (r matches Err(e) && e is InvalidKey),
        public_key_bytes@.len() == PUBLIC_KEY_LEN ==> (r matches Ok((ct, ss)) ==> ct@.len()
            == CIPHERTEXT_LEN && ss.0@.len() == SHARED_SECRET_LEN),
        public_key_bytes@.len() == PUBLIC_KEY_LEN ==> (r matches Err(e) ==> e is Kem),
{
    if public_key_bytes.len() != PUBLIC_KEY_LEN {
        return Err(ParamantError::InvalidKey(String::from_str("Ongeldige KEM public key")));
    }
    match kyber_encapsulate(public_key_bytes) {
        Some((ct, ss)) => Ok((ct, SharedSecret(ss))),
        None => Err(ParamantError::Kem(String::from_str("system RNG failure"))),
    }
}

} // verus!
