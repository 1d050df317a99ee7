//! Password hashing and checking, done by the `bcrypt` crate.

use vstd::prelude::*;
use bcrypt::BcryptError;

verus! {

/// An error raised by `bcrypt`; held opaque.
#[verifier::external_type_specification]
#[verifier::external_body]
pub struct ExBcryptError(BcryptError);

/// Whether `bcrypt::verify` accepts `password` against the stored `hash`,
/// that is, returns `Ok(true)`. It depends on its two arguments alone.
pub uninterp spec fn bcrypt_verifies(password: Seq<char>, hash: Seq<char>) -> bool;

/// `bcrypt::verify(password, hash)`. Claimed: the result is `Ok(true)`
/// exactly when `bcrypt_verifies` holds of the two strings. Not claimed:
/// which of `Ok(false)` and `Err(..)` comes otherwise.
#[verifier::external_body]
fn bcrypt_verify(password: &str, hash: &str) -> (r: Result<bool, BcryptError>)
    ensures
        (r matches Ok(true)) == bcrypt_verifies(password@, hash@),
{
    bcrypt::verify(password, hash)
}

/// The start of every hash this service stores: bcrypt version `2b`, cost 12.
pub open spec fn bcrypt_hash_prefix() -> Seq<char> {
    "$2b$12$"@
}

/// `bcrypt::hash(password, bcrypt::DEFAULT_COST)`: a hash with a random
/// salt. Claimed: a hash that comes back verifies the same password (the
/// crate recomputes the hash with the salt and cost it reads from it), and
/// is the crate's 60-character `2b` format at cost 12: `$2b$12$`, then the
/// encoded salt and digest. Not claimed: when the call fails (only when the
/// salt cannot be drawn), nor the salt and digest characters.
#[verifier::external_body]
fn bcrypt_hash(password: &str) -> (r: Result<String, BcryptError>)
    ensures
        r matches Ok(h) ==> bcrypt_verifies(password@, h@),
        r matches Ok(h) ==> h@.len() == 60 && h@.subrange(0, 7) == bcrypt_hash_prefix(),
{
    bcrypt::hash(password, bcrypt::DEFAULT_COST)
}

/// Whether `password` matches the stored `hash`.
pub fn password_matches(password: &str, hash: &str) -> (ok: bool)
    ensures
        ok == bcrypt_verifies(password@, hash@),
{
    match bcrypt_verify(password, hash) {
        Ok(true) => true,
        _ => false,
    }
}

/// A salted hash of `password` to store, or `None` when hashing failed.
pub fn hash_password(password: &str) -> (h: Option<String>)
    ensures
        h matches Some(h) ==> bcrypt_verifies(password@, h@),
        h matches Some(h) ==> h@.len() == 60 && h@.subrange(0, 7) == bcrypt_hash_prefix(),
{
    match bcrypt_hash(password) {
        Ok(h) => Some(h),
        Err(_) => None,
    }
}

} // verus!
