//! The error taxonomy of the service, and its translation to HTTP-level
//! status codes for the request-handling boundary.

use vstd::prelude::*;

verus! {

/// Every failure the credential service or the session gate can report.
/// `InvalidCredentials` covers both an unknown username and a wrong password,
/// so a caller cannot learn whether an account exists.
#[derive(Clone, Copy, Debug, PartialEq, Eq, Structural)]
pub enum AuthError {
    /// The storage collaborator failed or refused the operation.
    DatabaseError,
    /// Registration conflict: the username or the email is already taken.
    UserExists,
    /// Unknown username or wrong password; the two are indistinguishable.
    InvalidCredentials,
    /// Internal password-hashing failure.
    HashError,
    /// Internal token-signing failure.
    TokenError,
    /// A presented token is malformed, carries a bad signature, or is expired.
    InvalidToken,
    /// The session gate refused the request before any handler ran.
    Unauthorized,
}

/// The HTTP status code that the request boundary reports for each error:
/// conflicts are 409, everything a client may not see further into is 401,
/// and internal failures are 500.
pub open spec fn spec_status_code(e: AuthError) -> u16 {
    match e {
        AuthError::DatabaseError => 500,
        AuthError::UserExists => 409,
        AuthError::InvalidCredentials => 401,
        AuthError::HashError => 500,
        AuthError::TokenError => 401,
        AuthError::InvalidToken => 401,
        AuthError::Unauthorized => 401,
    }
}

/// Translates an error into the status code of `spec_status_code`.
pub fn status_code(e: &AuthError) -> (code: u16)
    ensures
        code == spec_status_code(*e),
{
    match e {
        AuthError::DatabaseError => 500,
        AuthError::UserExists => 409,
        AuthError::InvalidCredentials => 401,
        AuthError::HashError => 500,
        AuthError::TokenError => 401,
        AuthError::InvalidToken => 401,
        AuthError::Unauthorized => 401,
    }
}

} // verus!
