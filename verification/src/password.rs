//! Password hasher: salted, adaptive one-way hashing and its verification.
//!
//! The hashing itself is bcrypt's. What this module adds is the reading of
//! bcrypt's answers in terms of the error taxonomy.

use vstd::prelude::*;
use crate::errors::AppError;
use crate::text::{digit_value, is_digit, text_option, text_result};

verus! {

/// Work factor handed to bcrypt when a password is hashed.
pub const HASH_COST: u32 = 12;

/// What `bcrypt::verify` answers for a password and a stored hash: `Some` of
/// whether they match, or `None` where it reports an error (a malformed
/// hash, or a work factor in it that bcrypt does not allow).
pub uninterp spec fn bcrypt_verdict(password: Seq<char>, hashed: Seq<char>) -> Option<bool>;

/// Shape of the text that bcrypt produces: sixty characters, the first four
/// of them `$2b$`, then the two digits of the work factor and a `$`.
pub open spec fn is_bcrypt_text(hashed: Seq<char>) -> bool {
    &&& hashed.len() == 60
    &&& hashed[0] == '$'
    &&& hashed[1] == '2'
    &&& hashed[2] == 'b'
    &&& hashed[3] == '$'
    &&& is_digit(hashed[4])
    &&& is_digit(hashed[5])
    &&& hashed[6] == '$'
}

/// The work factor that a bcrypt-shaped text was made with.
pub open spec fn bcrypt_cost(hashed: Seq<char>) -> nat {
    digit_value(hashed[4]) * 10 + digit_value(hashed[5])
}

/// What holds of every hash that bcrypt makes of `password` at the work
/// factor `cost`: it is bcrypt-shaped, it records the work factor, and it
/// verifies against the password.
pub open spec fn is_hash_of(hashed: Seq<char>, password: Seq<char>, cost: u32) -> bool {
    &&& is_bcrypt_text(hashed)
    &&& bcrypt_cost(hashed) == cost
    &&& bcrypt_verdict(password, hashed) == Some(true)
}

/// Calls `bcrypt::hash`, which salts the password with fresh random bytes.
///
/// Trusted: when bcrypt succeeds, its output is bcrypt-shaped, holds the
/// work factor it was asked for as two decimal digits, and is one that
/// `bcrypt::verify` accepts for the same password: verification reads work
/// factor and salt back from the hash and runs the same hashing on them.
/// Nothing is claimed about when bcrypt succeeds, nor about which of the
/// possible hashes comes back.
#[verifier::external_body]
fn bcrypt_hash(password: &str, cost: u32) -> (produced: Option<String>)
    ensures
        produced matches Some(hashed) ==> is_hash_of(hashed@, password@, cost),
{
    bcrypt::hash(password, cost).ok()
}

/// Calls `bcrypt::verify`.
///
/// Trusted: the answer depends on the password and the stored hash alone,
/// and is the one that [`bcrypt_verdict`] names.
#[verifier::external_body]
fn bcrypt_verify(password: &str, hashed: &str) -> (verdict: Option<bool>)
    ensures
        verdict == bcrypt_verdict(password@, hashed@),
{
    bcrypt::verify(password, hashed).ok()
}

/// Result of a hashing for which the primitive produced `produced`.
pub open spec fn hash_outcome(produced: Option<Seq<char>>) -> Result<Seq<char>, AppError> {
    match produced {
        Some(hashed) => Ok(hashed),
        None => Err(AppError::InternalError),
    }
}

/// Result of a verification for which the primitive answered `verdict`.
pub open spec fn verify_outcome(verdict: Option<bool>) -> Result<bool, AppError> {
    match verdict {
        Some(matches) => Ok(matches),
        None => Err(AppError::InternalError),
    }
}

/// Judges what the hashing primitive produced: a failure of the primitive
/// is an internal error.
pub fn accept_hash(produced: Option<String>) -> (result: Result<String, AppError>)
    ensures
        text_result(result) == hash_outcome(text_option(produced)),
        result matches Ok(hashed) ==> produced == Some(hashed),
{
    match produced {
        Some(hashed) => Ok(hashed),
        None => Err(AppError::InternalError),
    }
}

/// Hashes a password with a fresh salt.
///
/// Two calls on one password may give different hashes, so the contract
/// states what holds of every outcome: a hash that comes back is a hash of
/// this password at [`HASH_COST`], one that [`verify`] accepts for it, and
/// the only error is `InternalError`.
pub fn hash(plaintext: &str) -> (result: Result<String, AppError>)
    ensures
        match result {
            Ok(hashed) => is_hash_of(hashed@, plaintext@, HASH_COST),
            Err(error) => error == AppError::InternalError,
        },
{
    accept_hash(bcrypt_hash(plaintext, HASH_COST))
}

/// Judges the primitive's answer: a mismatch is `Ok(false)`, not an
/// error, and a stored hash that cannot be read is an internal error.
pub fn accept_verdict(verdict: Option<bool>) -> (result: Result<bool, AppError>)
    ensures
        result == verify_outcome(verdict),
{
    match verdict {
        Some(matches) => Ok(matches),
        None => Err(AppError::InternalError),
    }
}

/// Checks a password against a stored hash.
pub fn verify(plaintext: &str, hashed: &str) -> (result: Result<bool, AppError>)
    ensures
        result == verify_outcome(bcrypt_verdict(plaintext@, hashed@)),
{
    accept_verdict(bcrypt_verify(plaintext, hashed))
}

} // verus!
