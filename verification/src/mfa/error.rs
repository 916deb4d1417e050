//! Why a second-factor operation failed.
use vstd::prelude::*;
use crate::errors::AuthError;

verus! {

/// Why a second-factor operation did not go through.
#[derive(Debug, PartialEq, Eq)]
pub enum MfaError {
    /// A code is required and none was given.
    Required,
    /// The code given is not valid.
    Invalid,
    /// A new secret was issued: the user must confirm it with a code (it is sent along).
    Ack(String),
    /// A repository or cache failed.
    Repository(AuthError),
}

} // verus!
