//! Password hashing with Argon2 in its self-describing (PHC) string form.

use vstd::prelude::*;
use crate::error::AuthError;
use argon2::{PasswordHasher, PasswordVerifier};

verus! {

/// The PHC string that Argon2, with the library's default parameters, makes of
/// `password` under the B64 salt `salt`; `None` where it refuses the input.
pub uninterp spec fn argon2_hash_of(password: Seq<char>, salt: Seq<char>) -> Option<Seq<char>>;

/// Whether Argon2 accepts `password` against the PHC string `phc`; a string
/// that does not parse as PHC accepts nothing.
pub uninterp spec fn argon2_accepts(password: Seq<char>, phc: Seq<char>) -> bool;

/// Relies on `SaltString::generate` over the OS random source: a fresh
/// B64-encoded salt of 16 random bytes. Argon2's hashing refuses only salts
/// under 8 bytes and passwords over 4 GiB, so this salt takes every password
/// of up to 1024 characters.
#[verifier::external_body]
fn generate_salt() -> (r: String)
    ensures
        forall|p: Seq<char>| p.len() <= 1024 ==> (#[trigger] argon2_hash_of(p, r@)) is Some,
{
    let salt = argon2::password_hash::SaltString::generate(
        &mut argon2::password_hash::rand_core::OsRng,
    );
    salt.as_str().to_string()
}

/// Relies on `SaltString::from_b64` to read the salt and on
/// `Argon2::default().hash_password` to hash the password's UTF-8 bytes; its
/// verifier recomputes the digest with the parameters and salt that the PHC
/// string carries, so the password that made a hash is accepted against it.
#[verifier::external_body]
fn argon2_hash(password: &str, salt: &str) -> (r: Option<String>)
    ensures
        match r {
            Some(h) => argon2_hash_of(password@, salt@) == Some(h@) && argon2_accepts(password@, h@),
            None => argon2_hash_of(password@, salt@) is None,
        },
{
    let salt = argon2::password_hash::SaltString::from_b64(salt).ok()?;
    let hash = argon2::Argon2::default().hash_password(password.as_bytes(), &salt).ok()?;
    Some(hash.to_string())
}

/// Relies on `PasswordHash::new` to parse the PHC string and on
/// `Argon2::default().verify_password` to check the password's UTF-8 bytes.
#[verifier::external_body]
fn argon2_verify(password: &str, phc: &str) -> (r: bool)
    ensures
        r == argon2_accepts(password@, phc@),
{
    match argon2::PasswordHash::new(phc) {
        Ok(parsed) => argon2::Argon2::default().verify_password(password.as_bytes(), &parsed).is_ok(),
        Err(_) => false,
    }
}

/// Hashes `password` under the given B64 salt; a refusal is an internal error.
pub fn hash_password_with_salt(password: &str, salt: &str) -> (r: Result<String, AuthError>)
    ensures
        match r {
            Ok(h) => argon2_hash_of(password@, salt@) == Some(h@) && argon2_accepts(password@, h@),
            Err(e) => e == AuthError::Internal && argon2_hash_of(password@, salt@) is None,
        },
{
    match argon2_hash(password, salt) {
        Some(h) => Ok(h),
        None => Err(AuthError::Internal),
    }
}

/// Hashes `password` under a fresh random salt; a password of up to 1024
/// characters is always hashed.
pub fn hash_password(password: &str) -> (r: Result<String, AuthError>)
    ensures
        password@.len() <= 1024 ==> r is Ok,
        match r {
            Ok(h) => argon2_accepts(password@, h@) && exists|salt: Seq<char>|
                argon2_hash_of(password@, salt) == Some(h@),
            Err(e) => e == AuthError::Internal && exists|salt: Seq<char>| argon2_hash_of(password@, salt) is None,
        },
{
    let salt = generate_salt();
    hash_password_with_salt(password, salt.as_str())
}

/// Whether `password` matches the PHC string `hash`; false where `hash` is
/// malformed.
pub fn verify_password(password: &str, hash: &str) -> (r: bool)
    ensures
        r == argon2_accepts(password@, hash@),
{
    argon2_verify(password, hash)
}

} // verus!
