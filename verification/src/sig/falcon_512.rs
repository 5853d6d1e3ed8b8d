//! Falcon-512 (FN-DSA): small, variable-length signatures.

use vstd::prelude::*;

use crate::bytes::to_vec;
use crate::error::{CoreError, CoreResult};

verus! {

/// Length of a Falcon-512 public key, in bytes.
pub const PUBLIC_KEY_LEN: usize = 897;
/// Length of a Falcon-512 secret key, in bytes.
pub const SECRET_KEY_LEN: usize = 1281;
/// Maximum length of a Falcon-512 signature, in bytes (signatures vary).
pub const MAX_SIGNATURE_LEN: usize = 752;

/// A Falcon-512 public (verification) key.
#[derive(PartialEq, Eq)]
pub struct PublicKey(Vec<u8>);

/// A Falcon-512 secret (signing) key.
pub struct SecretKey(Vec<u8>);

/// A Falcon-512 signature.
#[derive(PartialEq, Eq)]
pub struct Signature(Vec<u8>);

impl View for PublicKey {
    type V = Seq<u8>;

    closed spec fn view(&self) -> Seq<u8> {
        self.0@
    }
}

impl View for SecretKey {
    type V = Seq<u8>;

    closed spec fn view(&self) -> Seq<u8> {
        self.0@
    }
}

impl View for Signature {
    type V = Seq<u8>;

    closed spec fn view(&self) -> Seq<u8> {
        self.0@
    }
}

/// Whether `n` bytes is a valid signature length.
pub open spec fn signature_len_ok(n: nat) -> bool {
    1 <= n <= MAX_SIGNATURE_LEN
}

impl PublicKey {
    #[verifier::type_invariant]
    closed spec fn inv(self) -> bool {
        self.0@.len() == PUBLIC_KEY_LEN
    }

    /// Borrow the key as bytes.
    pub fn as_bytes(&self) -> (r: &[u8])
        ensures
            r@ == self@,
            r@.len() == PUBLIC_KEY_LEN,
    {
        proof {
            use_type_invariant(self);
        }
        self.0.as_slice()
    }

    /// Build from bytes, validating the length.
    ///
    /// Errors with [`CoreError::Sig`] if `bytes` is not [`PUBLIC_KEY_LEN`] long.
    pub fn from_bytes(bytes: &[u8]) -> (r: CoreResult<Self>)
        ensures
            bytes@.len() == PUBLIC_KEY_LEN ==> (r matches Ok(k) && k@ == bytes@),
            bytes@.len() != PUBLIC_KEY_LEN ==> r == Err::<Self, CoreError>(
                CoreError::Sig("invalid public key length"),
            ),
    {
        if bytes.len() != PUBLIC_KEY_LEN {
            return Err(CoreError::Sig("invalid public key length"));
        }
        Ok(PublicKey(to_vec(bytes)))
    }
}

impl SecretKey {
    #[verifier::type_invariant]
    closed spec fn inv(self) -> bool {
        self.0@.len() == SECRET_KEY_LEN
    }

    /// Borrow the key as bytes. Handle with care.
    pub fn as_bytes(&self) -> (r: &[u8])
        ensures
            r@ == self@,
            r@.len() == SECRET_KEY_LEN,
    {
        proof {
            use_type_invariant(self);
        }
        self.0.as_slice()
    }

    /// Build from bytes, validating the length.
    ///
    /// Errors with [`CoreError::Sig`] if `bytes` is not [`SECRET_KEY_LEN`] long.
    pub fn from_bytes(bytes: &[u8]) -> (r: CoreResult<Self>)
        ensures
            bytes@.len() == SECRET_KEY_LEN ==> (r matches Ok(k) && k@ == bytes@),
            bytes@.len() != SECRET_KEY_LEN ==> r == Err::<Self, CoreError>(
                CoreError::Sig("invalid secret key length"),
            ),
    {
        if bytes.len() != SECRET_KEY_LEN {
            return Err(CoreError::Sig("invalid secret key length"));
        }
        Ok(SecretKey(to_vec(bytes)))
    }
}

impl Signature {
    #[verifier::type_invariant]
    closed spec fn inv(self) -> bool {
        signature_len_ok(self.0@.len())
    }

    /// Borrow the signature as bytes.
    pub fn as_bytes(&self) -> (r: &[u8])
        ensures
            r@ == self@,
            signature_len_ok(r@.len()),
    {
        proof {
            use_type_invariant(self);
        }
        self.0.as_slice()
    }

    /// Build from bytes, validating the length.
    ///
    /// Errors with [`CoreError::Sig`] if the length is not between 1 and [`MAX_SIGNATURE_LEN`].
    pub fn from_bytes(bytes: &[u8]) -> (r: CoreResult<Self>)
        ensures
            signature_len_ok(bytes@.len()) ==> (r matches Ok(k) && k@ == bytes@),
            !signature_len_ok(bytes@.len()) ==> r == Err::<Self, CoreError>(
                CoreError::Sig("invalid signature length"),
            ),
    {
        if bytes.len() == 0 || bytes.len() > MAX_SIGNATURE_LEN {
            return Err(CoreError::Sig("invalid signature length"));
        }
        Ok(Signature(to_vec(bytes)))
    }
}

impl Clone for PublicKey {
    fn clone(&self) -> (r: Self)
        ensures
            r@ == self@,
    {
        proof {
            use_type_invariant(self);
        }
        PublicKey(to_vec(self.0.as_slice()))
    }
}

impl Clone for SecretKey {
    fn clone(&self) -> (r: Self)
        ensures
            r@ == self@,
    {
        proof {
            use_type_invariant(self);
        }
        SecretKey(to_vec(self.0.as_slice()))
    }
}

impl Clone for Signature {
    fn clone(&self) -> (r: Self)
        ensures
            r@ == self@,
    {
        proof {
            use_type_invariant(self);
        }
        Signature(to_vec(self.0.as_slice()))
    }
}

} // verus!
