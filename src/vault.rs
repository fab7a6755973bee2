use argon2::password_hash::rand_core::{OsRng, RngCore};
use argon2::password_hash::{PasswordHasher, PasswordVerifier, Salt, SaltString};
use argon2::{Argon2, PasswordHash};
use vstd::prelude::*;
use crate::errors::AppError;

verus! {

/// Whether Argon2 accepts `password` against the PHC string `hash`.
pub uninterp spec fn argon2_accepts(hash: Seq<char>, password: Seq<char>) -> bool;

/// Relies on `OsRng::try_fill_bytes`, `SaltString::encode_b64` and
/// `Argon2::default().hash_password`: a PHC string under a fresh random
/// salt, which `verify_password` accepts for the same password (the crate's
/// documented round trip); `None` when the system's random source fails.
/// The salt is random, so nothing else is known.
#[verifier::external_body]
fn argon2_hash(password: &str) -> (r: Option<String>)
    ensures
        r matches Some(h) ==> argon2_accepts(h@, password@),
{
    let mut bytes = [0u8; Salt::RECOMMENDED_LENGTH];
    OsRng.try_fill_bytes(&mut bytes).ok()?;
    let salt = SaltString::encode_b64(&bytes).ok()?;
    Argon2::default().hash_password(password.as_bytes(), &salt).ok().map(|h| h.to_string())
}

/// Relies on `PasswordHash::new` and `Argon2::verify_password`: `false` when
/// the hash does not parse or the password does not match it.
#[verifier::external_body]
fn argon2_verify(hash: &str, password: &str) -> (r: bool)
    ensures
        r == argon2_accepts(hash@, password@),
{
    match PasswordHash::new(hash) {
        Ok(parsed) => Argon2::default().verify_password(password.as_bytes(), &parsed).is_ok(),
        Err(_) => false,
    }
}

/// Hashes `password` under a fresh random salt. Fails with `HashingFailure`
/// when the primitive produces no output; a hash that is returned verifies
/// against `password`.
pub fn get_hashed_password(password: &str) -> (r: Result<String, AppError>)
    ensures
        r matches Ok(h) ==> argon2_accepts(h@, password@),
        r matches Err(e) ==> e == AppError::HashingFailure,
{
    match argon2_hash(password) {
        Some(h) => Ok(h),
        None => Err(AppError::HashingFailure),
    }
}

/// Whether `password` matches `actual_hash`; `false`, never a failure, when
/// the hash is malformed.
pub fn verify_password(actual_hash: &str, password: &String) -> (r: bool)
    ensures
        r == argon2_accepts(actual_hash@, password@),
{
    argon2_verify(actual_hash, password.as_str())
}

} // verus!
