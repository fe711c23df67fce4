//! Password hashing with Argon2.

use vstd::prelude::*;
use vstd::utf8::encode_utf8;
use argon2::password_hash::rand_core::OsRng;
use argon2::password_hash::SaltString;
use argon2::{Argon2, PasswordHash, PasswordHasher, PasswordVerifier};

verus! {

/// Whether a password is short enough for Argon2 to hash: its UTF-8 encoding
/// is at most `0xFFFF_FFFF` bytes long.
pub open spec fn hashable(value: Seq<char>) -> bool {
    encode_utf8(value).len() <= 0xFFFF_FFFF
}

/// Whether `text` could be a hash in the PHC string form: such a hash starts
/// with the field separator `$`.
pub open spec fn starts_as_phc_string(text: Seq<char>) -> bool {
    text.len() > 0 && text[0] == '$'
}

/// Whether Argon2, with the parameters and the salt that `hash` records,
/// turns `value` into the output that `hash` records.
pub uninterp spec fn argon2_verifies(value: Seq<char>, hash: Seq<char>) -> bool;

/// Hashes `value` with `Argon2::default().hash_password` under a salt drawn by
/// `SaltString::generate` from the operating system's random source, and writes
/// the hash in its PHC string form. The salt is random, so nothing is claimed of
/// the text; what is claimed is that checking `value` against it with
/// `verify_password` succeeds, as the crate's hashing and verifying recompute
/// the same output from the recorded parameters and salt. With the default
/// parameters and a generated salt of the recommended length, the crate's only
/// refusal is a password longer than `MAX_PWD_LEN` (`0xFFFFFFFF`) bytes, so the
/// hash is made exactly when the UTF-8 encoding of `value` is no longer. The
/// PHC string form that `PasswordHash`'s `Display` writes starts with `$`. A
/// failure is described by the error's text.
#[verifier::external_body]
fn argon2_hash(value: &str) -> (res: Result<String, String>)
    ensures
        res matches Ok(h) ==> argon2_verifies(value@, h@),
        res matches Ok(h) ==> starts_as_phc_string(h@),
        res is Ok <==> hashable(value@),
{
    let salt = SaltString::generate(&mut OsRng);
    match Argon2::default().hash_password(value.as_bytes(), &salt) {
        Ok(h) => Ok(h.to_string()),
        Err(e) => Err(e.to_string()),
    }
}

/// Parses `hash` with `PasswordHash::new` and checks `value` against it with
/// `Argon2::default().verify_password`: success is `argon2_verifies`. The parse
/// refuses an empty text and one with anything before its first `$`, so such a
/// text is never accepted. A failure (an unparsable hash or a mismatch) is
/// described by the error's text.
#[verifier::external_body]
fn argon2_verify(value: &str, hash: &str) -> (res: Result<(), String>)
    ensures
        res is Ok <==> argon2_verifies(value@, hash@),
        !starts_as_phc_string(hash@) ==> res is Err,
{
    match PasswordHash::new(hash) {
        Ok(h) => Argon2::default().verify_password(value.as_bytes(), &h).map_err(|e| e.to_string()),
        Err(e) => Err(e.to_string()),
    }
}

/// Why hashing or checking a password failed.
#[derive(Debug)]
pub struct PasswordHashError {
    pub message: String,
}

/// Hashes `value` with a fresh random salt; checking `value` against the hash
/// succeeds, and the hash is written in the PHC string form. The hash is made
/// for every password of at most `0xFFFFFFFF` bytes in UTF-8, and refused for
/// a longer one.
pub fn hash(value: &str) -> (res: Result<String, PasswordHashError>)
    ensures
        res matches Ok(h) ==> argon2_verifies(value@, h@),
        res matches Ok(h) ==> starts_as_phc_string(h@),
        res is Ok <==> hashable(value@),
{
    match argon2_hash(value) {
        Ok(h) => Ok(h),
        Err(message) => Err(PasswordHashError { message }),
    }
}

/// Checks the plain `value` against the Argon2 `hash`; a text that is not in
/// the PHC string form accepts no value.
pub fn verify_hash(value: &str, hash: &str) -> (res: Result<(), PasswordHashError>)
    ensures
        res is Ok <==> argon2_verifies(value@, hash@),
        !starts_as_phc_string(hash@) ==> res is Err,
{
    match argon2_verify(value, hash) {
        Ok(()) => Ok(()),
        Err(message) => Err(PasswordHashError { message }),
    }
}

} // verus!
