//! Argon2 password hashing and verification, with the library's default
//! parameters and a fresh random salt for every hash.

use crate::error::AuthError;
use crate::text::concat;
use argon2::password_hash::{PasswordHash, PasswordHasher, PasswordVerifier, SaltString};
use vstd::prelude::*;

verus! {

/// What Argon2 verification makes of a password and an encoded hash: whether
/// the password matches, or none where the hash cannot be parsed or checked.
pub uninterp spec fn argon2_check(password: Seq<u8>, hash: Seq<char>) -> Option<bool>;

/// Relies on `SaltString::generate(&mut OsRng)` and
/// `Argon2::default().hash_password`: the PHC string of the hash, which
/// verification with the same password accepts (it recomputes the digest
/// with the salt and parameters the string carries), or the text of the error.
#[verifier::external_body]
fn argon2_hash(password: &[u8]) -> (r: Result<String, String>)
    ensures
        r matches Ok(h) ==> argon2_check(password@, h@) == Some(true),
{
    let salt = SaltString::generate(&mut argon2::password_hash::rand_core::OsRng);
    argon2::Argon2::default().hash_password(password, &salt).map(|h| h.to_string()).map_err(|e| e.to_string())
}

/// Relies on `PasswordHash::new` and `Argon2::default().verify_password`:
/// whether the password matches (a mismatch is `password_hash::Error::Password`),
/// or the text of any other error.
#[verifier::external_body]
fn argon2_verify(password: &[u8], hash: &str) -> (r: Result<bool, String>)
    ensures
        match r {
            Ok(b) => argon2_check(password@, hash@) == Some(b),
            Err(_) => argon2_check(password@, hash@) is None,
        },
{
    let parsed = PasswordHash::new(hash).map_err(|e| e.to_string())?;
    match argon2::Argon2::default().verify_password(password, &parsed) {
        Ok(()) => Ok(true),
        Err(argon2::password_hash::Error::Password) => Ok(false),
        Err(e) => Err(e.to_string()),
    }
}

/// Hashes a password; a hashing failure is an internal error.
pub fn create(password: &[u8]) -> (r: Result<String, AuthError>)
    ensures
        r matches Ok(h) ==> argon2_check(password@, h@) == Some(true),
        r matches Err(e) ==> e is InternalError,
{
    match argon2_hash(password) {
        Ok(h) => Ok(h),
        Err(e) => Err(AuthError::InternalError(concat("Failed to hash password: ", e.as_str()))),
    }
}

/// Checks a password against a stored hash: `InvalidCredentials` only for a
/// genuine mismatch, an internal error where the hash cannot be used.
pub fn verify(password: &[u8], hash: String) -> (r: Result<(), AuthError>)
    ensures
        r is Ok <==> argon2_check(password@, hash@) == Some(true),
        argon2_check(password@, hash@) is Some && argon2_check(password@, hash@) != Some(true) ==> r matches Err(
            AuthError::InvalidCredentials,
        ),
        argon2_check(password@, hash@) is None ==> r matches Err(AuthError::InternalError(_)),
{
    match argon2_verify(password, hash.as_str()) {
        Ok(true) => Ok(()),
        Ok(false) => Err(AuthError::InvalidCredentials),
        Err(e) => Err(AuthError::InternalError(concat("Failed to verify password: ", e.as_str()))),
    }
}

} // verus!
