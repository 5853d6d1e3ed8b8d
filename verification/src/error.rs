//! Error types.

use vstd::prelude::*;

verus! {

/// Errors returned by the core operations.
#[derive(Debug)]
#[non_exhaustive]
pub enum CoreError {
    /// A KEM primitive returned an error.
    Kem(&'static str),
    /// A signature primitive returned an error.
    Sig(&'static str),
    /// An AEAD (AES-256-GCM) operation failed.
    Aead(&'static str),
    /// A key-derivation primitive (Argon2id, HKDF) failed.
    Kdf(&'static str),
    /// A BIP-0039 mnemonic operation failed.
    Mnemonic(&'static str),
    /// A Merkle tree operation failed (e.g. proof for an out-of-range leaf).
    Merkle(&'static str),
    /// A padding operation failed (e.g. a corrupt length suffix on unpad).
    Padding(&'static str),
    /// A wire-format envelope was malformed or could not be framed.
    Wire(&'static str),
    /// A KEM or signature algorithm identifier is not registered.
    UnknownAlgorithm {
        /// `"KEM"` or `"SIG"`.
        kind: &'static str,
        /// The identifier read from the wire.
        id: u16,
    },
    /// An input buffer had an unexpected length.
    InvalidLength {
        /// The length the operation required.
        expected: usize,
        /// The length actually supplied.
        got: usize,
    },
}

/// Result alias for the core operations.
pub type CoreResult<T> = Result<T, CoreError>;

/// The `serde_json` parse error, carried opaquely.
#[verifier::external_type_specification]
#[verifier::external_body]
pub struct ExJsonError(serde_json::Error);

/// Errors returned by the chat session layer (handshake, ratchet, messages).
#[derive(Debug)]
pub enum ParamantError {
    /// A KEM operation failed.
    Kem(String),
    /// An ECDH operation failed.
    Ecdh(String),
    /// Encryption failed.
    Encryption(String),
    /// Decryption failed: wrong key or tampered message.
    DecryptionFailed,
    /// Replay attack detected: nonce already seen.
    ReplayDetected,
    /// A key was malformed.
    InvalidKey(String),
    /// A JSON document could not be parsed.
    Serialization(serde_json::Error),
    /// A relay operation failed.
    Relay(String),
    /// The session has no ratchet yet (the handshake is not complete).
    SessionNotInitialized,
}

/// Result alias for the session layer.
pub type ParamantResult<T> = Result<T, ParamantError>;

} // verus!
