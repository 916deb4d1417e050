//! Clients: the identities behind users and applications.
use vstd::prelude::*;
use crate::models::enums::Kind;

verus! {

/// A client: its id, name and kind.
#[derive(Debug, PartialEq, Eq, Clone)]
pub struct Client {
    pub id: i32,
    pub name: String,
    pub kind: Kind,
}

impl Client {
    pub fn get_id(&self) -> (r: i32)
        ensures
            r == self.id,
    {
        self.id
    }

    pub fn get_name(&self) -> (r: &str)
        ensures
            r@ == self.name@,
    {
        self.name.as_str()
    }

    pub fn get_kind(&self) -> (r: Kind)
        ensures
            r == self.kind,
    {
        self.kind
    }
}

} // verus!
