//! Where secrets are stored.
use vstd::prelude::*;
use crate::errors::AuthError;
use crate::secret::domain::Secret;

verus! {

/// Looks secrets up; implemented by the service's storage layer.
///
/// The lookup's answer is described by a relation that an implementation may define: what it
/// may answer for a given user and name. Unless it says otherwise, any answer is possible.
pub trait SecretRepository {
    /// `r` is an answer this store gives to a lookup of the secret `name` of `user_id`.
    closed spec fn answers_find_secret(&self, user_id: i32, name: Seq<char>, r: Result<Secret, AuthError>) -> bool {
        true
    }

    /// The secret named `name` that belongs to the user `user_id`.
    fn find_by_user_and_name(&self, user_id: i32, name: &str) -> (r: Result<Secret, AuthError>)
        ensures
            self.answers_find_secret(user_id, name@, r),
    ;
}

} // verus!
