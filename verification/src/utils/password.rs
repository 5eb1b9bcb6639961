//! Password hashing and checking.

use vstd::prelude::*;
use crate::errors::{AppError, AppResult};

verus! {

/// What checking a password against a stored hash gives: nothing if the text
/// is no password hash, else whether the password matches it.
pub uninterp spec fn argon2_verdict(password: Seq<char>, hash: Seq<char>) -> Option<bool>;

/// `Argon2::hash_password` of the argon2 crate with its default parameters
/// and a salt fresh from `SaltString::generate`: the hash in its text form, or
/// nothing if hashing failed. Which hash comes depends on the salt and is not
/// claimed; whichever comes, checking the same password against it succeeds,
/// as the crate documents: the check reads algorithm, version, parameters and
/// salt from the hash and computes the same output again.
#[verifier::external_body]
fn argon2_hash(password: &str) -> (hash: Option<String>)
    ensures
        hash matches Some(h) ==> argon2_verdict(password@, h@) == Some(true),
{
    let salt = argon2::password_hash::SaltString::generate(
        &mut argon2::password_hash::rand_core::OsRng,
    );
    match argon2::PasswordHasher::hash_password(
        &argon2::Argon2::default(),
        password.as_bytes(),
        &salt,
    ) {
        Ok(hash) => Some(hash.to_string()),
        Err(_) => None,
    }
}

/// `PasswordHash::new` and `Argon2::verify_password` of the argon2 crate with
/// its default parameters: nothing if the text is no password hash, else
/// whether hashing the password as the stored hash says gives that hash.
#[verifier::external_body]
fn argon2_verify(password: &str, hash: &str) -> (verdict: Option<bool>)
    ensures
        verdict == argon2_verdict(password@, hash@),
{
    match argon2::password_hash::PasswordHash::new(hash) {
        Ok(parsed) => Some(
            argon2::PasswordVerifier::verify_password(
                &argon2::Argon2::default(),
                password.as_bytes(),
                &parsed,
            ).is_ok(),
        ),
        Err(_) => None,
    }
}

/// The result of hashing: a hash, or a hashing error.
pub fn hashing_result(outcome: Option<String>) -> (hashed: AppResult<String>)
    ensures
        match outcome {
            Some(hash) => hashed == Ok::<String, AppError>(hash),
            None => hashed matches Err(AppError::ArgonError(m)) && m@
                == "Failed to hash password"@,
        },
{
    match outcome {
        Some(hash) => Ok(hash),
        None => Err(AppError::ArgonError(String::from_str("Failed to hash password"))),
    }
}

/// The result of a check: whether the password matched, or an
/// authentication error for a stored text that is no password hash.
pub fn verdict_result(verdict: Option<bool>) -> (checked: AppResult<bool>)
    ensures
        match verdict {
            Some(matched) => checked == Ok::<bool, AppError>(matched),
            None => checked matches Err(AppError::AuthError(m)) && m@ == "Invalid password hash"@,
        },
{
    match verdict {
        Some(matched) => Ok(matched),
        None => Err(AppError::AuthError(String::from_str("Invalid password hash"))),
    }
}

/// Hash a password using Argon2 with a fresh salt. The salt decides which
/// hash comes; whichever comes is one that this password is verified
/// against, and no other outcome but a hashing error is possible.
pub fn hash_password(password: &str) -> (hashed: AppResult<String>)
    ensures
        match hashed {
            Ok(hash) => argon2_verdict(password@, hash@) == Some(true),
            Err(e) => e matches AppError::ArgonError(m) && m@ == "Failed to hash password"@,
        },
{
    hashing_result(argon2_hash(password))
}

/// Verify a password against its hash.
pub fn verify_password(password: &str, hash: &str) -> (checked: AppResult<bool>)
    ensures
        match argon2_verdict(password@, hash@) {
            Some(matched) => checked == Ok::<bool, AppError>(matched),
            None => checked matches Err(AppError::AuthError(m)) && m@ == "Invalid password hash"@,
        },
{
    verdict_result(argon2_verify(password, hash))
}

} // verus!
