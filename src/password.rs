//! One-way salted password hashing with Argon2, in the self-describing PHC
//! string format.

use vstd::prelude::*;

verus! {

#[verifier::external_type_specification]
#[verifier::external_body]
pub struct ExPasswordHashError(argon2::password_hash::Error);

/// Whether `password` verifies against the PHC hash string `phc`.
pub uninterp spec fn password_matches(password: Seq<char>, phc: Seq<char>) -> bool;

/// Relies on argon2's PasswordHasher::hash_password with default parameters and a
/// salt from SaltString::generate over the operating system's generator: the
/// resulting PHC string verifies against the same password.
#[verifier::external_body]
fn hash_with_fresh_salt(password: &str) -> (r: Result<String, argon2::password_hash::Error>)
    ensures
        r is Ok ==> password_matches(password@, r->Ok_0@),
{
    let salt = argon2::password_hash::SaltString::generate(
        &mut argon2::password_hash::rand_core::OsRng,
    );
    let hasher = argon2::Argon2::default();
    let hash = argon2::password_hash::PasswordHasher::hash_password(
        &hasher,
        password.as_bytes(),
        &salt,
    )?;
    Ok(hash.to_string())
}

/// Relies on argon2's PasswordVerifier::verify_password, after PasswordHash::new
/// parses the stored PHC string: a string that does not parse verifies nothing.
#[verifier::external_body]
fn verify_against(password: &str, phc: &str) -> (r: bool)
    ensures
        r == password_matches(password@, phc@),
{
    match argon2::password_hash::PasswordHash::new(phc) {
        Ok(parsed) => argon2::password_hash::PasswordVerifier::verify_password(
            &argon2::Argon2::default(),
            password.as_bytes(),
            &parsed,
        ).is_ok(),
        Err(_) => false,
    }
}

/// Hashing the password failed.
#[derive(Debug, Clone, Copy, PartialEq, Eq, Structural)]
pub struct HashError;

/// Hashes `password` under a fresh random salt; the hash verifies against it.
pub fn hash_password(password: &str) -> (r: Result<String, HashError>)
    ensures
        r is Ok ==> password_matches(password@, r->Ok_0@),
{
    match hash_with_fresh_salt(password) {
        Ok(h) => Ok(h),
        Err(_) => Err(HashError),
    }
}

/// Whether `password` matches the stored hash `phc`; a malformed hash string is a
/// mismatch, not a failure.
pub fn verify_password(password: &str, phc: &str) -> (r: bool)
    ensures
        r == password_matches(password@, phc@),
{
    verify_against(password, phc)
}

} // verus!
