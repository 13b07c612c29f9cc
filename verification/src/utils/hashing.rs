//! Slow, salted password hashing.

use vstd::prelude::*;
use argon2::password_hash::PasswordHash;
use argon2::password_hash::PasswordHasher;
use argon2::password_hash::PasswordVerifier;
use argon2::password_hash::Salt;
use argon2::password_hash::SaltString;
use argon2::Algorithm;
use argon2::Argon2;
use argon2::Params;
use argon2::Version;

verus! {

/// Memory that one hash computation fills, in KiB.
pub const HASH_MEMORY_KIB: u32 = 15000;

/// Passes over that memory.
pub const HASH_ITERATIONS: u32 = 2;

/// Degree of parallelism.
pub const HASH_PARALLELISM: u32 = 1;

/// The PHC string that Argon2id, version 0x13, computes for `password`
/// under the salt `salt` (in its textual form) and the given costs; `None`
/// where the hasher refuses the salt or the costs or fails otherwise.
pub uninterp spec fn argon2id_phc(
    password: Seq<char>,
    salt: Seq<char>,
    memory_kib: u32,
    iterations: u32,
    parallelism: u32,
) -> Option<Seq<char>>;

/// Whether Argon2 accepts `password` for the hash string `hash`: the text
/// parses as a PHC string and the hash recomputed from `password` with the
/// salt and the costs that the string records equals the one recorded.
pub uninterp spec fn phc_verifies(hash: Seq<char>, password: Seq<char>) -> bool;

/// The hash string of `password` under `salt` with the costs of this
/// service.
pub open spec fn password_hash_with(password: Seq<char>, salt: Seq<char>) -> Option<Seq<char>> {
    argon2id_phc(password, salt, HASH_MEMORY_KIB, HASH_ITERATIONS, HASH_PARALLELISM)
}

/// Calls `SaltString::generate` with the thread-local random generator and
/// gives the salt in its textual form. Nothing is claimed of the salt.
#[verifier::external_body]
fn fresh_salt() -> (salt: String) {
    SaltString::generate(&mut rand::thread_rng()).as_str().to_owned()
}

/// Calls `Salt::from_b64`, `Params::new` and `Argon2::hash_password`
/// (Argon2id, version 0x13) and renders the result as a PHC string.
///
/// The result is named `argon2id_phc`. The contract adds what the hasher
/// is for: a hash that was made from `password` verifies against
/// `password`, because verification recomputes the hash from the salt and
/// the costs that the string records. An error is given as its
/// description.
#[verifier::external_body]
fn argon2id_hash(
    password: &str,
    salt: &str,
    memory_kib: u32,
    iterations: u32,
    parallelism: u32,
) -> (r: Result<String, String>)
    ensures
        match r {
            Ok(hash) => argon2id_phc(password@, salt@, memory_kib, iterations, parallelism) == Some(
                hash@,
            ) && phc_verifies(hash@, password@),
            Err(_) => argon2id_phc(password@, salt@, memory_kib, iterations, parallelism) is None,
        },
{
    let salt = match Salt::from_b64(salt) {
        Ok(salt) => salt,
        Err(e) => return Err(e.to_string()),
    };
    let params = match Params::new(memory_kib, iterations, parallelism, None) {
        Ok(params) => params,
        Err(e) => return Err(e.to_string()),
    };
    match Argon2::new(Algorithm::Argon2id, Version::V0x13, params).hash_password(password.as_bytes(), salt) {
        Ok(hash) => Ok(hash.to_string()),
        Err(e) => Err(e.to_string()),
    }
}

/// Calls `PasswordHash::new` and `Argon2::verify_password`; a text that is
/// no PHC string counts as a mismatch. The result is named `phc_verifies`.
#[verifier::external_body]
fn argon2_verify(hash: &str, candidate: &str) -> (ok: bool)
    ensures
        ok == phc_verifies(hash@, candidate@),
{
    match PasswordHash::new(hash) {
        Ok(parsed) => Argon2::default().verify_password(candidate.as_bytes(), &parsed).is_ok(),
        Err(_) => false,
    }
}

/// Hashes `password` under the salt `salt` with the costs of this service.
/// The hash verifies against `password`. An error carries the hasher's own
/// description.
pub fn hash_password_with_salt(password: &str, salt: &str) -> (r: Result<String, String>)
    ensures
        match r {
            Ok(hash) => password_hash_with(password@, salt@) == Some(hash@) && phc_verifies(
                hash@,
                password@,
            ),
            Err(_) => password_hash_with(password@, salt@) is None,
        },
{
    argon2id_hash(password, salt, HASH_MEMORY_KIB, HASH_ITERATIONS, HASH_PARALLELISM)
}

/// What the hasher made of a password, as a result of
/// `compute_password_hash` tells it: the hash string, or nothing where
/// hashing failed.
pub open spec fn hashing_outcome(r: Result<String, String>) -> Option<Seq<char>> {
    match r {
        Ok(hash) => Some(hash@),
        Err(_) => None,
    }
}

/// Hashes `password` under a fresh random salt with the costs of this
/// service.
///
/// The salt is drawn anew for every call, so the result is not a function
/// of the password. Whatever salt was drawn, the result is what the hasher
/// makes of `password` under that salt: a hash string, which verifies
/// against `password`, or, where the hasher fails under that salt, an
/// error with the hasher's own description.
pub fn compute_password_hash(password: &str) -> (r: Result<String, String>)
    ensures
        exists|salt: Seq<char>| #[trigger]
            password_hash_with(password@, salt) == hashing_outcome(r),
        r matches Ok(hash) ==> phc_verifies(hash@, password@),
{
    let salt = fresh_salt();
    let r = hash_password_with_salt(password, salt.as_str());
    assert(password_hash_with(password@, salt@) == hashing_outcome(r));
    r
}

/// Whether `password_candidate` matches `expected_password_hash`. A text
/// that is no hash string matches nothing; the call never fails.
pub fn verify_password_hash(expected_password_hash: &str, password_candidate: &str) -> (ok: bool)
    ensures
        ok == phc_verifies(expected_password_hash@, password_candidate@),
{
    argon2_verify(expected_password_hash, password_candidate)
}

} // verus!
