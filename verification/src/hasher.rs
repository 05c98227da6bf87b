//! Credential hashing: derives and verifies salted password hashes with the
//! Argon2 password hashing function. Each derivation draws a fresh random
//! salt; the resulting PHC string carries algorithm, parameters, salt and
//! digest together, so verification needs no side-channel lookup.

use argon2::password_hash::{PasswordHash, PasswordHasher, PasswordVerifier, SaltString};
use argon2::password_hash::rand_core::OsRng;
use vstd::prelude::*;

verus! {

/// Whether `password` matches the salted hash string `phc`: Argon2 recomputed
/// with the salt and parameters embedded in `phc` agrees with its digest part.
/// The outcome depends on the two strings alone; a string that is no PHC
/// encoding matches no password.
pub uninterp spec fn verifies(password: Seq<char>, phc: Seq<char>) -> bool;

/// Relies on `Argon2::hash_password` with a salt from `SaltString::generate`:
/// whatever salt is drawn, the returned PHC string verifies the hashed
/// password. Entropy-source failure aborts the process, a fatal startup-class
/// condition rather than a runtime error.
#[verifier::external_body]
fn argon2_hash(password: &str) -> (phc: String)
    requires
        password@.len() <= 0x3FFF_FFFF,
    ensures
        verifies(password@, phc@),
{
    let salt = SaltString::generate(&mut OsRng);
    argon2::Argon2::default()
        .hash_password(password.as_bytes(), &salt)
        .expect("Failed to hash password")
        .to_string()
}

/// Relies on `PasswordHash::new` and `Argon2::verify_password`: a
/// deterministic recomputation from the password and the stored string alone,
/// compared in constant time. A malformed stored string is a verification
/// failure, not a crash.
#[verifier::external_body]
fn argon2_verify(password: &str, phc: &str) -> (r: bool)
    ensures
        r == verifies(password@, phc@),
{
    match PasswordHash::new(phc) {
        Ok(parsed) => argon2::Argon2::default()
            .verify_password(password.as_bytes(), &parsed)
            .is_ok(),
        Err(_) => false,
    }
}

/// Derive a salted hash for a password, with a fresh salt per call. The
/// result is never the plaintext and embeds everything later verification
/// needs.
pub fn hash_password(password: &str) -> (phc: String)
    requires
        password@.len() <= 0x3FFF_FFFF,
    ensures
        verifies(password@, phc@),
{
    argon2_hash(password)
}

/// Check a password against a stored hash string. True exactly when the
/// recomputation with the embedded salt matches; malformed stored strings
/// verify nothing.
pub fn verify_password(password: &str, phc: &str) -> (r: bool)
    ensures
        r == verifies(password@, phc@),
{
    argon2_verify(password, phc)
}

} // verus!
