//! Primitives of the chat session: ML-KEM-768 (Kyber768), ECDH P-256, the
//! HKDF key schedule and AES-256-GCM message encryption.

pub mod aead;
pub mod ecdh;
pub mod entropy;
pub mod kdf;
pub mod kem;
