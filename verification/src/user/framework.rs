//! The user service of the framework layer, the user store and the verification email.
use vstd::prelude::*;
use crate::grpc::{Code, Status};
use crate::user::domain::User;
use crate::errors::AuthError;
use crate::metadata::domain::Metadata;

verus! {

/// The user service; none of its handlers is implemented yet.
pub struct UserServiceImplementation {}

/// The answer of every handler of the user service.
pub open spec fn unimplemented_answer<T>(r: Result<T, Status>) -> bool {
    r matches Err(s) && s.code == Code::Unimplemented && s.message@ == Seq::<char>::empty()
}

impl UserServiceImplementation {
    pub fn login(&self) -> (r: Result<(), Status>)
        ensures
            unimplemented_answer(r),
    {
        Err(Status::with_message(Code::Unimplemented, String::new()))
    }

    pub fn logout(&self) -> (r: Result<(), Status>)
        ensures
            unimplemented_answer(r),
    {
        Err(Status::with_message(Code::Unimplemented, String::new()))
    }

    pub fn signup(&self) -> (r: Result<(), Status>)
        ensures
            unimplemented_answer(r),
    {
        Err(Status::with_message(Code::Unimplemented, String::new()))
    }

    pub fn delete(&self) -> (r: Result<(), Status>)
        ensures
            unimplemented_answer(r),
    {
        Err(Status::with_message(Code::Unimplemented, String::new()))
    }
}

/// The user store backed by the relational database.
pub struct PostgresUserRepository {}

impl PostgresUserRepository {
    /// Whether saving `user` inserts it, because it has no id yet, rather than updating it.
    pub fn creates(user: &User) -> (r: bool)
        ensures
            r == (user.id == 0),
    {
        user.id == 0
    }

    /// One step of saving `user`: its metadata is saved first, and a failure ends the save;
    /// the stored metadata, with its id, becomes the user's; then a user without an id (0) is
    /// inserted with its email and metadata id, and gets the id the database gave it, and any
    /// other user's row is updated by its id. The database's failure ends the save.
    pub fn save_step(user: &mut User, step: SaveUserStep, event: SaveUserEvent) -> (r: (SaveUserStep, SaveUserAction))
        requires
            save_expects(step, event),
        ensures
            event is Begin ==> r == (SaveUserStep::MetaAsked, SaveUserAction::SaveMeta(old(user).meta))
                && *final(user) == *old(user),
            event matches SaveUserEvent::MetaSaved(saved) ==> match saved {
                Err(e) => r.1 == SaveUserAction::Finish(Err(e)) && *final(user) == *old(user),
                Ok(m) => user_with(*old(user), *final(user), old(user).id, m) && if old(user).id
                    == 0 {
                    r.0 == SaveUserStep::InsertAsked && (r.1 matches SaveUserAction::Insert(em, mid)
                        && em@ == old(user).email@ && mid == m.id)
                } else {
                    r.0 == SaveUserStep::UpdateAsked && (r.1 matches SaveUserAction::Update(
                        id,
                        em,
                        mid,
                    ) && id == old(user).id && em@ == old(user).email@ && mid == m.id)
                },
            },
            event matches SaveUserEvent::Inserted(ins) ==> match ins {
                Err(e) => r.1 == SaveUserAction::Finish(Err(e)) && *final(user) == *old(user),
                Ok(id) => r.1 == SaveUserAction::Finish(Ok(())) && user_with(
                    *old(user),
                    *final(user),
                    id,
                    old(user).meta,
                ),
            },
            event matches SaveUserEvent::Updated(w) ==> r.1 == SaveUserAction::Finish(w)
                && *final(user) == *old(user),
    {
        match event {
            SaveUserEvent::Begin => {
                let m = Metadata {
                    id: user.meta.id,
                    created_at: user.meta.created_at,
                    updated_at: user.meta.updated_at,
                    deleted_at: user.meta.deleted_at,
                };
                (SaveUserStep::MetaAsked, SaveUserAction::SaveMeta(m))
            },
            SaveUserEvent::MetaSaved(saved) => match saved {
                Err(e) => (step, SaveUserAction::Finish(Err(e))),
                Ok(m) => {
                    let mid = m.id;
                    user.meta = m;
                    if Self::creates(user) {
                        (SaveUserStep::InsertAsked, SaveUserAction::Insert(user.email.clone(), mid))
                    } else {
                        (SaveUserStep::UpdateAsked, SaveUserAction::Update(user.id, user.email.clone(), mid))
                    }
                },
            },
            SaveUserEvent::Inserted(ins) => match ins {
                Err(e) => (step, SaveUserAction::Finish(Err(e))),
                Ok(id) => {
                    Self::set_created_id(user, id);
                    (step, SaveUserAction::Finish(Ok(())))
                },
            },
            SaveUserEvent::Updated(w) => (step, SaveUserAction::Finish(w)),
        }
    }

    /// Records the id the database gave a newly inserted user.
    pub fn set_created_id(user: &mut User, id: i32)
        ensures
            final(user).id == id,
            final(user).name == old(user).name,
            final(user).email == old(user).email,
            final(user).password == old(user).password,
            final(user).secret == old(user).secret,
            final(user).meta == old(user).meta,
    {
        user.id = id;
    }
}

/// Where a save of a user stands.
#[derive(Debug, PartialEq, Eq, Structural, Clone, Copy)]
pub enum SaveUserStep {
    Start,
    /// The user's metadata was handed to the metadata store.
    MetaAsked,
    /// A row for the new user was handed to the database to insert.
    InsertAsked,
    /// The user's row was handed to the database to update.
    UpdateAsked,
}

/// What a save asks of the stores next, or how it ends.
#[derive(Debug, PartialEq, Eq)]
pub enum SaveUserAction {
    /// Save this metadata.
    SaveMeta(Metadata),
    /// Insert a row for a new user with this email and metadata id.
    Insert(String, i32),
    /// Update the row of the user with this id: its email and metadata id.
    Update(i32, String, i32),
    /// The save is over, with this outcome.
    Finish(Result<(), AuthError>),
}

/// What a store answered.
#[derive(Debug, PartialEq, Eq)]
pub enum SaveUserEvent {
    Begin,
    /// The metadata as stored, with its id, or the failure.
    MetaSaved(Result<Metadata, AuthError>),
    /// The id the database gave the inserted row, or the failure.
    Inserted(Result<i32, AuthError>),
    Updated(Result<(), AuthError>),
}

/// The events each save step waits for.
pub open spec fn save_expects(step: SaveUserStep, event: SaveUserEvent) -> bool {
    match step {
        SaveUserStep::Start => event is Begin,
        SaveUserStep::MetaAsked => event is MetaSaved,
        SaveUserStep::InsertAsked => event is Inserted,
        SaveUserStep::UpdateAsked => event is Updated,
    }
}

/// `after` is `before` with only its metadata and id possibly changed, to `meta` and `id`.
pub open spec fn user_with(before: User, after: User, id: i32, meta: Metadata) -> bool {
    &&& after.id == id
    &&& after.meta == meta
    &&& after.name == before.name
    &&& after.email == before.email
    &&& after.password == before.password
    &&& after.secret == before.secret
}

pub open spec fn verification_subject() -> Seq<char> {
    "Verification email"@
}

pub open spec fn verification_body() -> Seq<char> {
    "<h1>Click here in order to verificate your email</h1>"@
}

/// Sends the emails that verify a user's address.
pub struct EmailSenderImplementation {}

impl EmailSenderImplementation {
    /// The verification email for `to`: its recipient, subject and body.
    pub fn verification_email(to: &str) -> (r: (String, String, String))
        ensures
            r.0@ == to@,
            r.1@ == verification_subject(),
            r.2@ == verification_body(),
    {
        (
            to.to_owned(),
            "Verification email".to_owned(),
            "<h1>Click here in order to verificate your email</h1>".to_owned(),
        )
    }
}

} // verus!
