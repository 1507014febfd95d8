//! Salted password hashing and verification.

use vstd::prelude::*;
use argon2::Argon2;
use argon2::password_hash::PasswordHash;
use argon2::password_hash::PasswordHasher;
use argon2::password_hash::PasswordVerifier;
use argon2::password_hash::SaltString;
use argon2::password_hash::rand_core::OsRng;

verus! {

/// Whether the stored hash string is a well-formed encoded credential hash
/// (algorithm identifier, cost parameters, salt and digest all parseable).
/// Names the success of `argon2::password_hash::PasswordHash::new`.
pub uninterp spec fn hash_parses(hash: Seq<char>) -> bool;

/// Whether the plaintext re-derives, under the parameters and salt embedded
/// in the hash string, the digest embedded there. Names the success of
/// `argon2::Argon2::verify_password` on a parsed hash.
pub uninterp spec fn password_matches(plaintext: Seq<char>, hash: Seq<char>) -> bool;

/// The hashing primitive could not derive or encode a hash
/// (for example, it could not allocate its working memory).
#[derive(Clone, Copy, PartialEq, Eq, Debug)]
pub struct HashingError;

/// Why a plaintext failed to verify against a stored credential hash.
#[derive(Clone, Copy, PartialEq, Eq, Debug)]
pub enum VerificationError {
    /// The stored hash is well formed, but the re-derived digest differs.
    Mismatch,
    /// The stored hash string could not be parsed (corrupt or foreign format).
    MalformedHash,
}

/// The outcome of verifying `plaintext` against `hash`: `MalformedHash`
/// exactly when the stored string does not parse, success exactly when it
/// parses and the re-derived digest matches, and `Mismatch` otherwise.
pub open spec fn verify_outcome(plaintext: Seq<char>, hash: Seq<char>) -> Result<(), VerificationError> {
    if !hash_parses(hash) {
        Err(VerificationError::MalformedHash)
    } else if password_matches(plaintext, hash) {
        Ok(())
    } else {
        Err(VerificationError::Mismatch)
    }
}

/// Relies on `argon2::Argon2::hash_password` with a salt drawn freshly from
/// `OsRng`: on success the encoded hash string parses back and verifies
/// against the plaintext it was derived from.
#[verifier::external_body]
fn argon2_hash(password: &str) -> (r: Result<String, HashingError>)
    ensures
        r matches Ok(h) ==> hash_parses(h@) && password_matches(password@, h@),
{
    let salt = SaltString::generate(&mut OsRng);
    match Argon2::default().hash_password(password.as_bytes(), &salt) {
        Ok(h) => Ok(h.to_string()),
        Err(_) => Err(HashingError),
    }
}

/// Relies on `argon2::password_hash::PasswordHash::new` (parsing the stored
/// hash) and `argon2::Argon2::verify_password` (re-deriving the digest under
/// the embedded parameters and comparing in constant time). A hash that does
/// not parse is reported as `MalformedHash`; any verification-stage failure
/// is reported as `Mismatch`.
#[verifier::external_body]
fn argon2_verify(password: &str, hash: &str) -> (r: Result<(), VerificationError>)
    ensures
        r == verify_outcome(password@, hash@),
{
    let parsed = match PasswordHash::new(hash) {
        Ok(p) => p,
        Err(_) => return Err(VerificationError::MalformedHash),
    };
    match Argon2::default().verify_password(password.as_bytes(), &parsed) {
        Ok(()) => Ok(()),
        Err(_) => Err(VerificationError::Mismatch),
    }
}

/// Derive a self-describing credential hash from a plaintext secret, under a
/// fresh random salt. The result embeds everything verification needs; it
/// verifies against the plaintext it was derived from.
pub fn hash_password(password: &str) -> (r: Result<String, HashingError>)
    ensures
        r matches Ok(h) ==> hash_parses(h@) && password_matches(password@, h@),
{
    argon2_hash(password)
}

/// Verify a plaintext secret against a previously derived credential hash.
/// Succeeds exactly when the stored hash parses and the re-derived digest
/// matches; fails with `MalformedHash` exactly when the stored string does
/// not parse, and with `Mismatch` otherwise.
pub fn verify_password(password: &str, password_hash: &str) -> (r: Result<(), VerificationError>)
    ensures
        r == verify_outcome(password@, password_hash@),
{
    argon2_verify(password, password_hash)
}

/// Law: a freshly derived hash verifies against its own plaintext. Whatever
/// well-formed, matching hash `hash_password` returns for a plaintext,
/// `verify_password` accepts that plaintext against it.
pub proof fn lemma_fresh_hash_verifies(plaintext: Seq<char>, hash: Seq<char>)
    requires
        hash_parses(hash),
        password_matches(plaintext, hash),
    ensures
        verify_outcome(plaintext, hash) == Ok::<(), VerificationError>(()),
{
}

/// Law: against a well-formed hash, a plaintext whose digest differs fails
/// with `Mismatch` — never with `MalformedHash`, and never successfully.
pub proof fn lemma_wrong_password_mismatches(plaintext: Seq<char>, hash: Seq<char>)
    requires
        hash_parses(hash),
        !password_matches(plaintext, hash),
    ensures
        verify_outcome(plaintext, hash) == Err::<(), VerificationError>(VerificationError::Mismatch),
{
}

/// Law: a stored string that does not parse as a credential hash fails with
/// `MalformedHash`, whatever the plaintext.
pub proof fn lemma_malformed_hash_rejected(plaintext: Seq<char>, hash: Seq<char>)
    requires
        !hash_parses(hash),
    ensures
        verify_outcome(plaintext, hash) == Err::<(), VerificationError>(VerificationError::MalformedHash),
{
}

} // verus!
