//! Password hashing and verification.
//!
//! The service never stores or compares plaintext passwords: registration
//! stores a salted, computationally-expensive one-way hash, and login checks
//! a candidate password against the stored hash.  Both operations are
//! performed by the bcrypt library behind the two trusted items below.
//!
//! Because the salt is drawn freshly for every hash, the hash itself cannot
//! be named as a function of the password.  What is deterministic — and what
//! every contract of the service is stated over — is whether a password and
//! a hash match: `bcrypt::verify` reads the cost and the salt out of the
//! hash string and recomputes the digest, so its verdict depends on the
//! password and the hash alone.

use vstd::prelude::*;

verus! {

/// The verdict of `bcrypt::verify` on a password and a hash string: the hash
/// embeds its cost and salt, so the verdict is a function of the two
/// arguments alone.
pub uninterp spec fn bcrypt_matches(password: Seq<char>, hash: Seq<char>) -> bool;

/// Whether `bcrypt::verify` can read the hash string at all: the 60-byte
/// bcrypt format with an in-range cost.  Verification fails — rather than
/// answering — exactly on a hash outside this form, and the failure is a
/// function of the hash alone: the password never enters the parse, and
/// with truncation allowed it cannot fail the recomputation either.
pub uninterp spec fn bcrypt_hash_wf(hash: Seq<char>) -> bool;

/// Relies on `bcrypt::hash` with the library's default cost: it salts from
/// OS randomness and emits the standard 60-byte hash string, which
/// `bcrypt::verify` parses and accepts for the same password.  `None`
/// reports a failed random draw.
#[verifier::external_body]
pub(crate) fn hash_password(password: &str) -> (r: Option<String>)
    ensures
        r matches Some(h) ==> bcrypt_matches(password@, h@) && bcrypt_hash_wf(h@),
{
    bcrypt::hash(password, bcrypt::DEFAULT_COST).ok()
}

/// Relies on `bcrypt::verify`: it recomputes the digest from the password
/// and the cost and salt embedded in the hash string, and compares in
/// constant time.  It errs — `None` here — exactly when the hash string
/// cannot be parsed, whatever the password.
#[verifier::external_body]
pub(crate) fn verify_password(password: &str, hash: &str) -> (r: Option<bool>)
    ensures
        r is Some <==> bcrypt_hash_wf(hash@),
        r matches Some(b) ==> b == bcrypt_matches(password@, hash@),
{
    bcrypt::verify(password, hash).ok()
}

} // verus!
