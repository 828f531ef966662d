//! One-way salted password hashing, backed by the bcrypt crate.
//!
//! The hash embeds a per-call random salt, so nothing relates two hashes of
//! the same password; all that is stated is that verification accepts the
//! password a hash was made from.

use vstd::prelude::*;

verus! {

/// Whether bcrypt's verification accepts `password` against the stored
/// `hash`. Uninterpreted: the algorithm is not restated here; the two
/// wrappers below are the only sources of facts about it.
pub uninterp spec fn bcrypt_matches(password: Seq<char>, hash: Seq<char>) -> bool;

/// Relies on bcrypt::hash: the result embeds a fresh random salt together
/// with the cost, and bcrypt::verify accepts the same password against it
/// (verification re-derives the checksum from the embedded salt and cost).
#[verifier::external_body]
pub(crate) fn hash_password(password: &str) -> (r: Result<String, String>)
    ensures
        r matches Ok(h) ==> bcrypt_matches(password@, h@),
{
    bcrypt::hash(password, bcrypt::DEFAULT_COST).map_err(|e| format!("{}", e))
}

/// Relies on bcrypt::verify: deterministic in (password, hash). A malformed
/// stored hash makes it report an error, never panic; that is surfaced here
/// as a mismatch, so callers fail closed.
#[verifier::external_body]
pub(crate) fn verify_password(password: &str, hash: &str) -> (r: bool)
    ensures
        r == bcrypt_matches(password@, hash@),
{
    bcrypt::verify(password, hash).unwrap_or(false)
}

} // verus!
