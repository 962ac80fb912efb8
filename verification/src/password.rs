//! Credential-hashing collaborator: salt generation, password hashing and
//! verification, delegated to the argon2 crate behind trusted wrappers.
//!
//! `is_salt` names the salt strings the hashing pipeline accepts: those
//! that `SaltString::from_b64` parses and `Argon2::hash_password` takes.
//! `hash_of` names the PHC-format hash string argon2 computes for a
//! password and such a salt, and `credential_matches` names the verdict of
//! argon2's verification, which deterministically recomputes the hash from
//! the parameters and salt embedded in the hash string and compares.

use vstd::prelude::*;
use argon2::Argon2;
use argon2::PasswordHasher;
use argon2::PasswordVerifier;
use argon2::password_hash::PasswordHash;
use argon2::password_hash::SaltString;
use argon2::password_hash::rand_core::OsRng;

verus! {

/// Whether the hashing pipeline accepts this string as a B64 salt.
pub uninterp spec fn is_salt(s: Seq<char>) -> bool;

/// The PHC string argon2 computes, with its default algorithm and
/// parameters, from a password and an accepted salt; a function of the
/// two arguments alone.
pub uninterp spec fn hash_of(password: Seq<char>, salt: Seq<char>) -> Seq<char>;

/// The verdict of argon2's verification of a password against a PHC
/// string; a function of the two arguments alone.
pub uninterp spec fn credential_matches(password_hash: Seq<char>, password: Seq<char>) -> bool;

/// Relies on `SaltString::generate`: a freshly drawn random salt is a
/// valid B64 salt string of the recommended length, which the hashing
/// pipeline accepts back. Nothing else is promised of a random value.
#[verifier::external_body]
pub fn generate_salt() -> (r: String)
    ensures
        is_salt(r@),
{
    let salt = SaltString::generate(&mut OsRng);
    salt.as_str().to_owned()
}

/// Relies on `Argon2::hash_password` with the default algorithm and
/// parameters: the PHC-string result is a function of the password and
/// salt alone, and `Argon2::verify_password` accepts the same password
/// against it, since verification recomputes the hash with the embedded
/// salt and parameters and compares. The call fails exactly on salt
/// strings the pipeline does not accept; the password length bound keeps
/// the password under argon2's four-gigabyte input limit.
#[verifier::external_body]
pub fn hash(password: &str, salt: &str) -> (r: Option<String>)
    requires
        password@.len() < 0x4000_0000,
    ensures
        match r {
            Some(h) => h@ == hash_of(password@, salt@) && credential_matches(h@, password@),
            None => !is_salt(salt@),
        },
{
    let parsed = match SaltString::from_b64(salt) {
        Ok(s) => s,
        Err(_) => return None,
    };
    match Argon2::default().hash_password(password.as_bytes(), &parsed) {
        Ok(h) => Some(h.to_string()),
        Err(_) => None,
    }
}

/// Relies on `PasswordHash::new` and `Argon2::verify_password`: the
/// verdict is a deterministic function of the hash string and the
/// password; a hash string that does not parse as a PHC string verifies
/// no password.
#[verifier::external_body]
pub fn verify(password_hash: &str, password: &str) -> (r: bool)
    ensures
        r == credential_matches(password_hash@, password@),
{
    match PasswordHash::new(password_hash) {
        Ok(parsed) => Argon2::default().verify_password(password.as_bytes(), &parsed).is_ok(),
        Err(_) => false,
    }
}

} // verus!
