//! The password-verification capability: checking a plaintext against a
//! stored hash and producing a hash for a new account. Both calls go to an
//! outside bcrypt implementation; what this crate knows of them is stated
//! over the uninterpreted function [`bcrypt_check_of`].

use vstd::prelude::*;

verus! {

/// What checking a password against a stored hash yields: `Some(b)` when the
/// hash parses and the comparison gives `b`, `None` when the library rejects
/// the hash string. Verification re-derives the hash from the cost and salt
/// embedded in the hash string, so the outcome is a function of the two
/// arguments alone.
pub uninterp spec fn bcrypt_check_of(password: Seq<char>, hash: Seq<char>) -> Option<bool>;

/// The password matches the stored hash.
pub open spec fn password_ok(password: Seq<char>, hash: Seq<char>) -> bool {
    bcrypt_check_of(password, hash) == Some(true)
}

/// Relies on `bcrypt::verify`: deterministic in its two arguments, never
/// panics, and errs exactly on a hash string the library cannot parse.
#[verifier::external_body]
pub(crate) fn verify_password(password: &str, hash: &str) -> (r: Option<bool>)
    ensures
        r == bcrypt_check_of(password@, hash@),
{
    bcrypt::verify(password, hash).ok()
}

/// Relies on `bcrypt::hash` at the library's default cost: the salt is drawn
/// fresh on every call, so no two calls are related; of any hash it does
/// return, the library guarantees that verifying the same password against
/// it succeeds.
#[verifier::external_body]
pub(crate) fn hash_password(password: &str) -> (r: Option<String>)
    ensures
        r matches Some(h) ==> bcrypt_check_of(password@, h@) == Some(true),
{
    bcrypt::hash(password, bcrypt::DEFAULT_COST).ok()
}

} // verus!
