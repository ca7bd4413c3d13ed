use argon2::password_hash::{rand_core::OsRng, PasswordHash, PasswordHasher as _, PasswordVerifier, SaltString};
use argon2::Argon2;
use vstd::prelude::*;
use vstd::utf8::encode_utf8;

use crate::user::password::{HashedPassword, RawPassword};
use crate::user::service::{PasswordHasher, PasswordHashingError};

verus! {

#[verifier::external_type_specification]
#[verifier::external_body]
pub struct ExPasswordHashError(argon2::password_hash::Error);

/// Whether the PHC string `hash` is an Argon2 hash of the bytes `password`.
pub uninterp spec fn argon2_accepts(password: Seq<u8>, hash: Seq<char>) -> bool;

/// Argon2 with its default parameters (`Argon2::default`) hashing `password`
/// with a fresh random salt (`SaltString::generate` with `OsRng`), through
/// `PasswordHasher::hash_password`, in PHC string form. A hash that comes out is
/// one that `PasswordVerifier::verify_password` accepts for the same password.
/// Argon2 refuses only passwords longer than `u32::MAX` bytes (`verify_inputs`):
/// the default parameters and the generated salt always pass. The salt is
/// random, so which hash comes out is not stated.
#[verifier::external_body]
fn argon2_hash_password(password: &[u8]) -> (r: Result<String, argon2::password_hash::Error>)
    ensures
        password@.len() <= u32::MAX ==> r is Ok,
        r matches Ok(hash) ==> argon2_accepts(password@, hash@),
{
    let salt = SaltString::generate(&mut OsRng);
    match Argon2::default().hash_password(password, &salt) {
        Ok(hash) => Ok(hash.to_string()),
        Err(e) => Err(e),
    }
}

/// Whether `hash`, read as a PHC string (`PasswordHash::new`), is accepted for
/// `password` by `PasswordVerifier::verify_password` of `Argon2::default()`; a
/// text that is not a PHC string accepts nothing. Which hashes accept which
/// passwords is left to the name `argon2_accepts`.
#[verifier::external_body]
fn argon2_verify_password(password: &[u8], hash: &str) -> (r: bool)
    ensures
        r == argon2_accepts(password@, hash@),
{
    match PasswordHash::new(hash) {
        Ok(parsed) => Argon2::default().verify_password(password, &parsed).is_ok(),
        Err(_) => false,
    }
}

/// Hashes and checks passwords with Argon2, over their UTF-8 bytes.
pub struct Argon2PasswordHasher;

impl PasswordHasher for Argon2PasswordHasher {
    fn hash(&self, raw: &RawPassword) -> (r: Result<HashedPassword, PasswordHashingError>)
        ensures
            encode_utf8(raw@).len() <= u32::MAX ==> r is Ok,
            r matches Ok(hashed) ==> argon2_accepts(encode_utf8(raw@), hashed@),
            r matches Err(e) ==> e == PasswordHashingError::HashingFailed,
    {
        match argon2_hash_password(raw.as_bytes()) {
            Ok(hash) => Ok(HashedPassword::from_raw_str(hash.as_str())),
            Err(_) => Err(PasswordHashingError::HashingFailed),
        }
    }

    fn verify(&self, raw: &RawPassword, hashed: &HashedPassword) -> (r: bool)
        ensures
            r == argon2_accepts(encode_utf8(raw@), hashed@),
    {
        argon2_verify_password(raw.as_bytes(), hashed.as_str())
    }
}

} // verus!
