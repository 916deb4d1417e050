//! The errors the library reports.
use vstd::prelude::*;
use crate::constants::{ERR_NOT_FOUND, ERR_UNAUTHORIZED, ERR_NO_MATCH, ERR_TOTP};

verus! {

/// Why an operation of the library failed.
#[derive(Debug, PartialEq, Eq)]
pub enum AuthError {
    /// No such user, session or secret, or the credentials do not match one.
    NotFound,
    /// A second factor was required and not given, or it was not valid.
    Unauthorized,
    /// A text did not have the expected format.
    InvalidFormat,
    /// No TOTP generator could be built from the secret.
    Totp,
    /// A repository failed; the message is the repository's own.
    Repository(String),
}

/// The text of an error.
pub open spec fn error_message(e: AuthError) -> Seq<char> {
    match e {
        AuthError::NotFound => ERR_NOT_FOUND@,
        AuthError::Unauthorized => ERR_UNAUTHORIZED@,
        AuthError::InvalidFormat => ERR_NO_MATCH@,
        AuthError::Totp => ERR_TOTP@,
        AuthError::Repository(m) => m@,
    }
}

impl AuthError {
    /// A copy of the error.
    pub fn clone_error(&self) -> (r: AuthError)
        ensures
            r == *self,
    {
        match self {
            AuthError::NotFound => AuthError::NotFound,
            AuthError::Unauthorized => AuthError::Unauthorized,
            AuthError::InvalidFormat => AuthError::InvalidFormat,
            AuthError::Totp => AuthError::Totp,
            AuthError::Repository(m) => AuthError::Repository(m.clone()),
        }
    }

    /// The text of the error.
    pub fn message(&self) -> (r: String)
        ensures
            r@ == error_message(*self),
    {
        match self {
            AuthError::NotFound => ERR_NOT_FOUND.to_owned(),
            AuthError::Unauthorized => ERR_UNAUTHORIZED.to_owned(),
            AuthError::InvalidFormat => ERR_NO_MATCH.to_owned(),
            AuthError::Totp => ERR_TOTP.to_owned(),
            AuthError::Repository(m) => m.clone(),
        }
    }
}

} // verus!
