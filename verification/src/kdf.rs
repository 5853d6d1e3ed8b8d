//! Key derivation: Argon2id password hashing and HKDF-SHA256.
//!
//! - [`argon2id`]: slow, memory-hard hashing for low-entropy secrets (passwords).
//! - [`hkdf`]: fast extract-and-expand for high-entropy keying material.

pub mod argon2id;
pub mod hkdf;
