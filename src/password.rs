//! Salted one-way password hashing (Argon2, PHC string format) and its check.

use rand_core::OsRng;
use argon2::password_hash::{PasswordHash, PasswordHasher, PasswordVerifier, SaltString};
use argon2::Argon2;
use vstd::prelude::*;
use vstd::string::StringSliceAdditionalSpecFns;

verus! {

/// Why a hashing or verification call failed.
#[derive(Debug, Clone, Copy, PartialEq, Eq, Structural)]
pub enum PasswordError {
    /// The hashing algorithm itself failed.
    Encoding,
    /// The stored hash is not a well-formed encoded hash.
    Format,
}

/// What checking `plain` against the encoded hash `phc` gives: `None` when
/// `phc` does not parse, else whether the password matches.
pub uninterp spec fn argon2_verdict(plain: Seq<char>, phc: Seq<char>) -> Option<bool>;

/// Relies on password_hash's `PasswordHash::new`, which parses the encoded
/// hash, and on `Argon2::verify_password`, which recomputes the digest with the
/// hash's own parameters and salt: the outcome depends on the two strings alone.
#[verifier::external_body]
fn argon2_check(plain: &str, phc: &str) -> (r: Option<bool>)
    ensures
        r == argon2_verdict(plain@, phc@),
{
    match PasswordHash::new(phc) {
        Ok(parsed) => Some(Argon2::default().verify_password(plain.as_bytes(), &parsed).is_ok()),
        Err(_) => None,
    }
}

/// The fixed start of every hash this library makes: Argon2id, version 19, and
/// argon2's default cost (19456 KiB, 2 passes, 1 lane).
pub open spec fn hash_prefix() -> Seq<char> {
    "$argon2id$v=19$m=19456,t=2,p=1$"@
}

/// Relies on `SaltString::generate` over the OS random source and on
/// `Argon2::hash_password` with `Argon2::default()`: each call draws a fresh
/// salt; it fails only for a password over `MAX_PWD_LEN` (0xFFFFFFFF) bytes; the
/// PHC string it gives names Argon2id with the default cost, parses, and
/// verifies against the same password.
#[verifier::external_body]
fn argon2_hash(plain: &str) -> (r: Option<String>)
    ensures
        plain.spec_bytes().len() <= 0xFFFF_FFFF ==> r is Some,
        r matches Some(h) ==> argon2_verdict(plain@, h@) == Some(true),
        r matches Some(h) ==> forall|q: Seq<char>| #[trigger] argon2_verdict(q, h@) is Some,
        r matches Some(h) ==> h@.len() > hash_prefix().len() && h@.subrange(
            0,
            hash_prefix().len() as int,
        ) == hash_prefix(),
{
    let salt = SaltString::generate(&mut OsRng);
    Argon2::default().hash_password(plain.as_bytes(), &salt).ok().map(|h| h.to_string())
}

/// What `verify_password(plain, phc)` returns.
pub open spec fn verify_outcome(plain: Seq<char>, phc: Seq<char>) -> Result<bool, PasswordError> {
    match argon2_verdict(plain, phc) {
        Some(ok) => Ok(ok),
        None => Err(PasswordError::Format),
    }
}

/// Hashes `plain` with a fresh random salt and the fixed algorithm and cost.
/// The result verifies against `plain` and parses whatever password it is
/// checked against; the only failure is the algorithm's own, on a password of
/// more than 0xFFFFFFFF bytes.
pub fn hash_password(plain: &str) -> (r: Result<String, PasswordError>)
    ensures
        plain.spec_bytes().len() <= 0xFFFF_FFFF ==> r is Ok,
        r matches Ok(h) ==> verify_outcome(plain@, h@) == Ok::<bool, PasswordError>(true),
        r matches Ok(h) ==> forall|q: Seq<char>| #[trigger] verify_outcome(q, h@) is Ok,
        r matches Ok(h) ==> h@.len() > hash_prefix().len() && h@.subrange(
            0,
            hash_prefix().len() as int,
        ) == hash_prefix(),
        r matches Err(e) ==> e == PasswordError::Encoding,
{
    match argon2_hash(plain) {
        Some(h) => Ok(h),
        None => Err(PasswordError::Encoding),
    }
}

/// Checks `plain` against the stored encoded hash; a malformed hash is a
/// `Format` error, never a match.
pub fn verify_password(plain: &str, password_hash: &str) -> (r: Result<bool, PasswordError>)
    ensures
        r == verify_outcome(plain@, password_hash@),
{
    match argon2_check(plain, password_hash) {
        Some(ok) => Ok(ok),
        None => Err(PasswordError::Format),
    }
}

/// A hash produced for a password verifies against that same password.
pub proof fn lemma_hash_then_verify(plain: Seq<char>, phc: Seq<char>)
    requires
        argon2_verdict(plain, phc) == Some(true),
    ensures
        verify_outcome(plain, phc) == Ok::<bool, PasswordError>(true),
{
}

} // verus!
