//! Argon2id password hashing at fixed OWASP-2024 parameters.

use argon2::{Algorithm, Argon2, Params, Version};
use subtle::ConstantTimeEq;
use vstd::prelude::*;

use crate::error::{CoreError, CoreResult};

verus! {

/// Memory cost in KiB (19 MiB). OWASP 2024.
pub const M_COST_KIB: u32 = 19456;
/// Time cost, in iterations. OWASP 2024.
pub const T_COST: u32 = 2;
/// Parallelism (lanes). OWASP 2024.
pub const P_COST: u32 = 1;
/// Derived Argon2id tag length, in bytes.
pub const TAG_LEN: usize = 32;
/// The Argon2id (v0x13) 32-byte tag of `password` and `salt` at memory cost
/// `m_cost` KiB, `t_cost` iterations and `p_cost` lanes.
pub uninterp spec fn argon2id_tag_spec(password: Seq<u8>, salt: Seq<u8>, m_cost: u32, t_cost: u32, p_cost: u32) -> Seq<u8>;

/// The cost parameters `argon2::Params::new` accepts: at least 8 KiB and
/// 8 KiB per lane of memory, at least one iteration, 1 to `0xFF_FFFF` lanes.
pub open spec fn argon2_params_ok(m_cost: u32, t_cost: u32, p_cost: u32) -> bool {
    &&& m_cost >= 8
    &&& m_cost >= p_cost * 8
    &&& t_cost >= 1
    &&& 1 <= p_cost <= 0xFF_FFFF
}

/// `argon2::Params::new` with the given costs and a 32-byte output, then
/// `Argon2::hash_password_into` with Argon2id v0x13: the named tag of the
/// arguments. It succeeds exactly when the costs are accepted, the password
/// is at most `0xFFFF_FFFF` bytes and the salt between 8 and `0xFFFF_FFFF`
/// bytes (the crate's `verify_inputs`).
#[verifier::external_body]
fn argon2id_hash(password: &[u8], salt: &[u8], m_cost: u32, t_cost: u32, p_cost: u32) -> (r: Option<[u8; 32]>)
    requires
        p_cost <= 0x1FFF_FFFF,
    ensures
        r is Some <==> (argon2_params_ok(m_cost, t_cost, p_cost) && password@.len() <= 0xFFFF_FFFF && 8
            <= salt@.len() <= 0xFFFF_FFFF),
        r matches Some(t) ==> t@ == argon2id_tag_spec(password@, salt@, m_cost, t_cost, p_cost),
{
    let params = match Params::new(m_cost, t_cost, p_cost, Some(32)) {
        Ok(p) => p,
        Err(_) => return None,
    };
    let mut tag = [0u8; 32];
    match Argon2::new(Algorithm::Argon2id, Version::V0x13, params).hash_password_into(password, salt, &mut tag) {
        Ok(()) => Some(tag),
        Err(_) => None,
    }
}

/// The tag [`hash_password`] derives, at the fixed OWASP-2024 parameters.
pub open spec fn password_tag_spec(password: Seq<u8>, salt: Seq<u8>) -> Seq<u8> {
    argon2id_tag_spec(password, salt, M_COST_KIB, T_COST, P_COST)
}

/// `subtle::ConstantTimeEq::ct_eq` on byte slices: true exactly when the
/// slices are equal (of equal length and equal bytes).
#[verifier::external_body]
fn ct_eq(a: &[u8], b: &[u8]) -> (r: bool)
    ensures
        r == (a@ == b@),
{
    a.ct_eq(b).into()
}

/// Hash `password` with `salt`, returning the raw 32-byte Argon2id tag.
///
/// Errors with [`CoreError::Kdf`] when the salt is shorter than 8 bytes (or
/// salt or password exceed `0xFFFF_FFFF` bytes).
pub fn hash_password(password: &[u8], salt: &[u8]) -> (r: CoreResult<[u8; 32]>)
    ensures
        (password@.len() <= 0xFFFF_FFFF && 8 <= salt@.len() <= 0xFFFF_FFFF) ==> (r matches Ok(t)
            && t@ == password_tag_spec(password@, salt@)),
        r matches Ok(t) ==> t@ == argon2id_tag_spec(password@, salt@, M_COST_KIB, T_COST, P_COST),
        !(password@.len() <= 0xFFFF_FFFF && 8 <= salt@.len() <= 0xFFFF_FFFF) ==> r == Err::<
            [u8; 32],
            CoreError,
        >(CoreError::Kdf("Argon2id hashing failed")),
{
    match argon2id_hash(password, salt, M_COST_KIB, T_COST, P_COST) {
        Some(t) => Ok(t),
        None => Err(CoreError::Kdf("Argon2id hashing failed")),
    }
}

/// Verify `password`/`salt` against an `expected` tag in constant time.
///
/// Re-derives the tag and compares with `subtle::ConstantTimeEq`; returns
/// `false` on any hashing error (e.g. a too-short salt).
pub fn verify_password(password: &[u8], salt: &[u8], expected: &[u8; 32]) -> (r: bool)
    ensures
        r == (password@.len() <= 0xFFFF_FFFF && 8 <= salt@.len() <= 0xFFFF_FFFF
            && password_tag_spec(password@, salt@) == expected@),
{
    match hash_password(password, salt) {
        Ok(tag) => ct_eq(&tag, expected),
        Err(_) => false,
    }
}

} // verus!
