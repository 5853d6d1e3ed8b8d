//! Post-quantum messaging core: the PQHB wire format, length-hiding padding,
//! an RFC 6962 Merkle log, envelope modes over AES-256-GCM and HKDF, and the
//! chat ratchet, each with its contract proved by Verus.

pub mod aead;
pub mod bytes;
pub mod crypto;
pub mod encoding;
pub mod envelope;
pub mod error;
pub mod hash;
pub mod identity;
pub mod kdf;
pub mod kem;
pub mod merkle;
pub mod mnemonic;
pub mod padding;
pub mod random;
pub mod ratchet;
pub mod session;
pub mod sig;
pub mod wire;
