//! ML-KEM-768 (FIPS 203) key, ciphertext and shared-secret types.
//!
//! Keys and ciphertexts are carried as raw bytes of the standard lengths;
//! construction from bytes checks the length.

pub mod hybrid;

use vstd::prelude::*;

use crate::bytes::to_vec;
use crate::error::{CoreError, CoreResult};

verus! {

/// Length of an ML-KEM-768 public key, in bytes.
pub const PUBLIC_KEY_LEN: usize = 1184;
/// Length of an ML-KEM-768 secret key, in bytes.
pub const SECRET_KEY_LEN: usize = 2400;
/// Length of an ML-KEM-768 ciphertext, in bytes.
pub const CIPHERTEXT_LEN: usize = 1088;
/// Length of an ML-KEM-768 shared secret, in bytes.
pub const SHARED_SECRET_LEN: usize = 32;

/// An ML-KEM-768 public key.
#[derive(PartialEq, Eq)]
pub struct PublicKey(Vec<u8>);

/// An ML-KEM-768 secret key.
pub struct SecretKey(Vec<u8>);

/// An ML-KEM-768 ciphertext (the encapsulation sent to the receiver).
#[derive(PartialEq, Eq)]
pub struct Ciphertext(Vec<u8>);

/// A 32-byte shared secret.
pub struct SharedSecret(Vec<u8>);

impl View for PublicKey {
    type V = Seq<u8>;

    closed spec fn view(&self) -> Seq<u8> {
        self.0@
    }
}

impl View for SecretKey {
    type V = Seq<u8>;

    closed spec fn view(&self) -> Seq<u8> {
        self.0@
    }
}

impl View for Ciphertext {
    type V = Seq<u8>;

    closed spec fn view(&self) -> Seq<u8> {
        self.0@
    }
}

impl View for SharedSecret {
    type V = Seq<u8>;

    closed spec fn view(&self) -> Seq<u8> {
        self.0@
    }
}

/// What a length-checked constructor returns for `got` bytes where `expected` are needed.
pub open spec fn len_check(got: usize, expected: usize) -> Result<(), CoreError> {
    if got == expected {
        Ok(())
    } else {
        Err(CoreError::InvalidLength { expected, got })
    }
}

/// Length guard shared by the `from_bytes` constructors.
pub fn check_len(got: usize, expected: usize) -> (r: CoreResult<()>)
    ensures
        r == len_check(got, expected),
{
    if got == expected {
        Ok(())
    } else {
        Err(CoreError::InvalidLength { expected, got })
    }
}

impl PublicKey {
    #[verifier::type_invariant]
    closed spec fn inv(self) -> bool {
        self.0@.len() == PUBLIC_KEY_LEN
    }

    /// Borrow the key as bytes.
    pub fn as_bytes(&self) -> (r: &[u8])
        ensures
            r@ == self@,
            r@.len() == PUBLIC_KEY_LEN,
    {
        proof {
            use_type_invariant(self);
        }
        self.0.as_slice()
    }

    /// Build a public key from bytes, validating the length.
    ///
    /// Errors with [`CoreError::InvalidLength`] if `bytes` is not [`PUBLIC_KEY_LEN`] long.
    pub fn from_bytes(bytes: &[u8]) -> (r: CoreResult<Self>)
        ensures
            bytes@.len() == PUBLIC_KEY_LEN ==> (r matches Ok(k) && k@ == bytes@),
            bytes@.len() != PUBLIC_KEY_LEN ==> r == Err::<Self, CoreError>(
                CoreError::InvalidLength { expected: PUBLIC_KEY_LEN, got: bytes@.len() as usize },
            ),
    {
        check_len(bytes.len(), PUBLIC_KEY_LEN)?;
        Ok(PublicKey(to_vec(bytes)))
    }
}

impl Ciphertext {
    #[verifier::type_invariant]
    closed spec fn inv(self) -> bool {
        self.0@.len() == CIPHERTEXT_LEN
    }

    /// Borrow the ciphertext as bytes.
    pub fn as_bytes(&self) -> (r: &[u8])
        ensures
            r@ == self@,
            r@.len() == CIPHERTEXT_LEN,
    {
        proof {
            use_type_invariant(self);
        }
        self.0.as_slice()
    }

    /// Build a ciphertext from bytes, validating the length.
    ///
    /// Errors with [`CoreError::InvalidLength`] if `bytes` is not [`CIPHERTEXT_LEN`] long.
    pub fn from_bytes(bytes: &[u8]) -> (r: CoreResult<Self>)
        ensures
            bytes@.len() == CIPHERTEXT_LEN ==> (r matches Ok(k) && k@ == bytes@),
            bytes@.len() != CIPHERTEXT_LEN ==> r == Err::<Self, CoreError>(
                CoreError::InvalidLength { expected: CIPHERTEXT_LEN, got: bytes@.len() as usize },
            ),
    {
        check_len(bytes.len(), CIPHERTEXT_LEN)?;
        Ok(Ciphertext(to_vec(bytes)))
    }
}

impl SecretKey {
    #[verifier::type_invariant]
    closed spec fn inv(self) -> bool {
        self.0@.len() == SECRET_KEY_LEN
    }

    /// Borrow the secret key as bytes. Handle with care.
    pub fn as_bytes(&self) -> (r: &[u8])
        ensures
            r@ == self@,
            r@.len() == SECRET_KEY_LEN,
    {
        proof {
            use_type_invariant(self);
        }
        self.0.as_slice()
    }

    /// Build a secret key from bytes, validating the length.
    ///
    /// Errors with [`CoreError::InvalidLength`] if `bytes` is not [`SECRET_KEY_LEN`] long.
    pub fn from_bytes(bytes: &[u8]) -> (r: CoreResult<Self>)
        ensures
            bytes@.len() == SECRET_KEY_LEN ==> (r matches Ok(k) && k@ == bytes@),
            bytes@.len() != SECRET_KEY_LEN ==> r == Err::<Self, CoreError>(
                CoreError::InvalidLength { expected: SECRET_KEY_LEN, got: bytes@.len() as usize },
            ),
    {
        check_len(bytes.len(), SECRET_KEY_LEN)?;
        Ok(SecretKey(to_vec(bytes)))
    }
}

impl SharedSecret {
    #[verifier::type_invariant]
    closed spec fn inv(self) -> bool {
        self.0@.len() == SHARED_SECRET_LEN
    }

    /// Borrow the shared secret as bytes. Handle with care.
    pub fn as_bytes(&self) -> (r: &[u8])
        ensures
            r@ == self@,
            r@.len() == SHARED_SECRET_LEN,
    {
        proof {
            use_type_invariant(self);
        }
        self.0.as_slice()
    }

    /// Wrap the bytes of a shared secret, validating the length.
    ///
    /// Errors with [`CoreError::InvalidLength`] if `bytes` is not [`SHARED_SECRET_LEN`] long.
    pub fn from_bytes(bytes: &[u8]) -> (r: CoreResult<Self>)
        ensures
            bytes@.len() == SHARED_SECRET_LEN ==> (r matches Ok(k) && k@ == bytes@),
            bytes@.len() != SHARED_SECRET_LEN ==> r == Err::<Self, CoreError>(
                CoreError::InvalidLength { expected: SHARED_SECRET_LEN, got: bytes@.len() as usize },
            ),
    {
        check_len(bytes.len(), SHARED_SECRET_LEN)?;
        Ok(SharedSecret(to_vec(bytes)))
    }
}

impl Clone for PublicKey {
    fn clone(&self) -> (r: Self)
        ensures
            r@ == self@,
    {
        proof {
            use_type_invariant(self);
        }
        PublicKey(to_vec(self.0.as_slice()))
    }
}

impl Clone for SecretKey {
    fn clone(&self) -> (r: Self)
        ensures
            r@ == self@,
    {
        proof {
            use_type_invariant(self);
        }
        SecretKey(to_vec(self.0.as_slice()))
    }
}

impl Clone for Ciphertext {
    fn clone(&self) -> (r: Self)
        ensures
            r@ == self@,
    {
        proof {
            use_type_invariant(self);
        }
        Ciphertext(to_vec(self.0.as_slice()))
    }
}

impl Clone for SharedSecret {
    fn clone(&self) -> (r: Self)
        ensures
            r@ == self@,
    {
        proof {
            use_type_invariant(self);
        }
        SharedSecret(to_vec(self.0.as_slice()))
    }
}

} // verus!
