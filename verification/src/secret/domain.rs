//! Secrets a user owns, such as the key of a TOTP second factor.
use vstd::prelude::*;
use crate::constants::TOTP_SECRET_NAME;
use crate::metadata::domain::Metadata;
use crate::security::unix_now;
use crate::user::domain::User;

verus! {

/// What a secret is used for.
#[derive(Debug, PartialEq, Eq, Structural, Clone, Copy)]
pub enum SecretKind {
    Salt,
    Otp,
}

/// A secret: its owner, purpose, name and bytes.
#[derive(Debug, PartialEq, Eq, Clone)]
pub struct Secret {
    pub id: i32,
    pub owner: i32,
    pub kind: SecretKind,
    pub name: String,
    pub data: Vec<u8>,
    pub meta: Metadata,
}

/// The name a secret of each kind is stored under.
pub open spec fn kind_secret_name(kind: SecretKind) -> Seq<char> {
    match kind {
        SecretKind::Otp => TOTP_SECRET_NAME@,
        SecretKind::Salt => "salt"@,
    }
}

impl Secret {
    /// A new, not yet stored, secret of `kind` owned by `owner`, holding `data`.
    pub fn new(kind: SecretKind, owner: &User, data: &[u8]) -> (s: Secret)
        ensures
            s.id == 0,
            s.owner == owner.id,
            s.kind == kind,
            s.name@ == kind_secret_name(kind),
            s.data@ == data@,
            s.meta.id == 0,
            s.meta.deleted_at is None,
    {
        let name = match kind {
            SecretKind::Otp => TOTP_SECRET_NAME.to_owned(),
            SecretKind::Salt => "salt".to_owned(),
        };
        Secret {
            id: 0,
            owner: owner.id,
            kind,
            name,
            data: vstd::slice::slice_to_vec(data),
            meta: Metadata::new(unix_now()),
        }
    }

    /// Whether the secret has been deleted.
    pub fn is_deleted(&self) -> (r: bool)
        ensures
            r == self.meta.deleted_at is Some,
    {
        self.meta.deleted_at.is_some()
    }

    /// The secret's bytes.
    pub fn get_data(&self) -> (r: &[u8])
        ensures
            r@ == self.data@,
    {
        self.data.as_slice()
    }
}

} // verus!
