//! Post-quantum signature key and signature types.
//!
//! Each algorithm has its own key and signature types so a key of one scheme
//! can never stand where another's is expected. ML-DSA-65 is the default.

pub mod falcon_512;
pub mod ml_dsa_65;
pub mod slh_dsa;
