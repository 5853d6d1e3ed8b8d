//! ML-DSA-65 (FIPS 204), the default signature scheme.

use vstd::prelude::*;

use crate::bytes::to_vec;
use crate::error::{CoreError, CoreResult};

verus! {

/// Length of a ML-DSA-65 public key, in bytes.
pub const PUBLIC_KEY_LEN: usize = 1952;
/// Length of a ML-DSA-65 secret key, in bytes.
pub const SECRET_KEY_LEN: usize = 4032;
/// Length of an ML-DSA-65 signature, in bytes.
pub const SIGNATURE_LEN: usize = 3309;

/// A ML-DSA-65 public (verification) key.
#[derive(PartialEq, Eq)]
pub struct PublicKey(Vec<u8>);

/// A ML-DSA-65 secret (signing) key.
pub struct SecretKey(Vec<u8>);

/// A ML-DSA-65 signature.
#[derive(PartialEq, Eq)]
pub struct Signature(Vec<u8>);

impl View for PublicKey {
    type V = Seq<u8>;

    closed spec fn view(&self) -> Seq<u8> {
        self.0@
    }
}

impl View for SecretKey {
    type V = Seq<u8>;

    closed spec fn view(&self) -> Seq<u8> {
        self.0@
    }
}

impl View for Signature {
    type V = Seq<u8>;

    closed spec fn view(&self) -> Seq<u8> {
        self.0@
    }
}

/// Whether `n` bytes is a valid signature length.
pub open spec fn signature_len_ok(n: nat) -> bool {
    n == SIGNATURE_LEN
}

impl PublicKey {
    #[verifier::type_invariant]
    closed spec fn inv(self) -> bool {
        self.0@.len() == PUBLIC_KEY_LEN
    }

    /// Borrow the key as bytes.
    pub fn as_bytes(&self) -> (r: &[u8])
        ensures
            r@ == self@,
            r@.len() == PUBLIC_KEY_LEN,
    {
        proof {
            use_type_invariant(self);
        }
        self.0.as_slice()
    }

    /// Build from bytes, validating the length.
    ///
    /// Errors with [`CoreError::Sig`] if `bytes` is not [`PUBLIC_KEY_LEN`] long.
    pub fn from_bytes(bytes: &[u8]) -> (r: CoreResult<Self>)
        ensures
            bytes@.len() == PUBLIC_KEY_LEN ==> (r matches Ok(k) && k@ == bytes@),
            bytes@.len() != PUBLIC_KEY_LEN ==> r == Err::<Self, CoreError>(
                CoreError::Sig("invalid public key length"),
            ),
    {
        if bytes.len() != PUBLIC_KEY_LEN {
            return Err(CoreError::Sig("invalid public key length"));
        }
        Ok(PublicKey(to_vec(bytes)))
    }
}

impl SecretKey {
    #[verifier::type_invariant]
    closed spec fn inv(self) -> bool {
        self.0@.len() == SECRET_KEY_LEN
    }

    /// Borrow the key as bytes. Handle with care.
    pub fn as_bytes(&self) -> (r: &[u8])
        ensures
            r@ == self@,
            r@.len() == SECRET_KEY_LEN,
    {
        proof {
            use_type_invariant(self);
        }
        self.0.as_slice()
    }

    /// Build from bytes, validating the length.
    ///
    /// Errors with [`CoreError::Sig`] if `bytes` is not [`SECRET_KEY_LEN`] long.
    pub fn from_bytes(bytes: &[u8]) -> (r: CoreResult<Self>)
        ensures
            bytes@.len() == SECRET_KEY_LEN ==> (r matches Ok(k) && k@ == bytes@),
            bytes@.len() != SECRET_KEY_LEN ==> r == Err::<Self, CoreError>(
                CoreError::Sig("invalid secret key length"),
            ),
    {
        if bytes.len() != SECRET_KEY_LEN {
            return Err(CoreError::Sig("invalid secret key length"));
        }
        Ok(SecretKey(to_vec(bytes)))
    }
}

impl Signature {
    #[verifier::type_invariant]
    closed spec fn inv(self) -> bool {
        signature_len_ok(self.0@.len())
    }

    /// Borrow the signature as bytes.
    pub fn as_bytes(&self) -> (r: &[u8])
        ensures
            r@ == self@,
            signature_len_ok(r@.len()),
    {
        proof {
            use_type_invariant(self);
        }
        self.0.as_slice()
    }

    /// Build from bytes, validating the length.
    ///
    /// Errors with [`CoreError::Sig`] if the length is not [`SIGNATURE_LEN`].
    pub fn from_bytes(bytes: &[u8]) -> (r: CoreResult<Self>)
        ensures
            signature_len_ok(bytes@.len()) ==> (r matches Ok(k) && k@ == bytes@),
            !signature_len_ok(bytes@.len()) ==> r == Err::<Self, CoreError>(
                CoreError::Sig("invalid signature length"),
            ),
    {
        if bytes.len() != SIGNATURE_LEN {
            return Err(CoreError::Sig("invalid signature length"));
        }
        Ok(Signature(to_vec(bytes)))
    }
}

impl Clone for PublicKey {
    fn clone(&self) -> (r: Self)
        ensures
            r@ == self@,
    {
        proof {
            use_type_invariant(self);
        }
        PublicKey(to_vec(self.0.as_slice()))
    }
}

impl Clone for SecretKey {
    fn clone(&self) -> (r: Self)
        ensures
            r@ == self@,
    {
        proof {
            use_type_invariant(self);
        }
        SecretKey(to_vec(self.0.as_slice()))
    }
}

impl Clone for Signature {
    fn clone(&self) -> (r: Self)
        ensures
            r@ == self@,
    {
        proof {
            use_type_invariant(self);
        }
        Signature(to_vec(self.0.as_slice()))
    }
}

} // verus!
