//! One-way, salted password hashing and verification, built on the argon2
//! crate. Verification is deterministic in the plaintext and the stored PHC
//! hash string, which is captured by the uninterpreted relation
//! [`password_verifies`]; hashing draws a fresh random salt on every call, so
//! nothing is assumed about the hash string itself beyond that relation.
use vstd::prelude::*;

verus! {

/// Whether argon2's verification accepts `plain` against the PHC hash string
/// `hash`: the hash string carries the algorithm, parameters and salt, so the
/// outcome is a function of these two arguments alone. A string that does not
/// parse as a PHC hash is accepted for no plaintext.
pub uninterp spec fn password_verifies(plain: Seq<char>, hash: Seq<char>) -> bool;

/// Relies on `argon2::Argon2::verify_password` (the `PasswordVerifier<str>`
/// impl): it parses `hash` as a PHC string, recomputes the hash of `plain`
/// under the parameters and salt named there, and compares in constant time;
/// it returns `Ok` exactly when the outputs match, and an error for a
/// malformed hash string. The outcome depends on the two strings alone.
#[verifier::external_body]
pub(crate) fn verify_password_hash(plain: &str, hash: &str) -> (r: bool)
    ensures
        r == password_verifies(plain@, hash@),
{
    argon2::PasswordVerifier::verify_password(&argon2::Argon2::default(), plain.as_bytes(), hash)
        .is_ok()
}

/// Relies on `argon2::Argon2::hash_password` (the `PasswordHasher` impl): it
/// generates a fresh random salt, hashes `plain` under the default parameters
/// and returns the PHC string, which `verify_password` accepts against the
/// same plaintext. The salt is random, so no two calls need agree; only the
/// round trip with verification is assumed. Returns `None` if the underlying
/// call reports an error (for example a random-generator failure).
#[verifier::external_body]
pub(crate) fn hash_password_string(plain: &str) -> (r: Option<String>)
    ensures
        match r {
            Some(h) => password_verifies(plain@, h@),
            None => true,
        },
{
    match argon2::PasswordHasher::hash_password(&argon2::Argon2::default(), plain.as_bytes()) {
        Ok(h) => Some(h.to_string()),
        Err(_) => None,
    }
}

} // verus!
