//! The steps of a transaction.
use vstd::prelude::*;
use crate::errors::AuthError;

verus! {

/// A transaction body: checks before and after, and how to commit or undo it.
pub trait Body {
    fn precondition(&self) -> Result<(), String>;

    fn postcondition(&self) -> Result<String, String>;

    fn commit(&self) -> Result<(), AuthError>;

    fn rollback(&self);
}

} // verus!
