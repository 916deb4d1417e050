//! Where users are stored.
use vstd::prelude::*;
use crate::errors::AuthError;
use crate::user::domain::User;

verus! {

/// Looks users up; implemented by the service's storage layer.
///
/// Each lookup's answer is described by a relation that an implementation may define: what it
/// may answer for a given key. Unless it says otherwise, any answer is possible.
pub trait UserRepository {
    /// `r` is an answer this store gives to a lookup of the email `email`.
    closed spec fn answers_find_by_email(&self, email: Seq<char>, r: Result<User, AuthError>) -> bool {
        true
    }

    /// `r` is an answer this store gives to a lookup of the name `name`.
    closed spec fn answers_find_by_name(&self, name: Seq<char>, r: Result<User, AuthError>) -> bool {
        true
    }

    /// The user whose email is `email`.
    fn find_by_email(&self, email: &str) -> (r: Result<User, AuthError>)
        ensures
            self.answers_find_by_email(email@, r),
    ;

    /// The user whose name is `name`.
    fn find_by_name(&self, name: &str) -> (r: Result<User, AuthError>)
        ensures
            self.answers_find_by_name(name@, r),
    ;
}

} // verus!
