//! Bookkeeping attached to every stored entity.
use vstd::prelude::*;

verus! {

/// When an entity was created, last touched and deleted, in Unix seconds.
#[derive(Debug, PartialEq, Eq, Clone)]
pub struct Metadata {
    pub id: i32,
    pub created_at: u64,
    pub updated_at: u64,
    pub deleted_at: Option<u64>,
}

impl Metadata {
    /// Fresh metadata, not yet stored, created and touched at `now`.
    pub fn new(now: u64) -> (m: Metadata)
        ensures
            m.id == 0,
            m.created_at == now,
            m.updated_at == now,
            m.deleted_at is None,
    {
        Metadata { id: 0, created_at: now, updated_at: now, deleted_at: None }
    }
}

} // verus!
