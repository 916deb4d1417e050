//! The users of the service.
use vstd::prelude::*;
use crate::metadata::domain::Metadata;
use crate::regex::same_text;
use crate::secret::domain::Secret;

verus! {

/// A user: its name, email, shadowed password, optional secret and metadata.
#[derive(Debug, PartialEq, Eq, Clone)]
pub struct User {
    pub id: i32,
    pub name: String,
    pub email: String,
    /// The shadowed password (see `security::shadow`).
    pub password: String,
    pub secret: Option<Secret>,
    pub meta: Metadata,
}

impl User {
    pub fn get_id(&self) -> (r: i32)
        ensures
            r == self.id,
    {
        self.id
    }

    /// Whether `shadowed` is this user's (shadowed) password.
    pub fn match_password(&self, shadowed: &str) -> (r: bool)
        ensures
            r == (self.password@ == shadowed@),
    {
        same_text(self.password.as_str(), shadowed)
    }
}

} // verus!
