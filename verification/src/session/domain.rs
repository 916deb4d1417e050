//! Sessions: the token a login hands out and the in-memory session record.
use vstd::prelude::*;
use crate::errors::AuthError;
use crate::metadata::domain::Metadata;
use crate::security::{random_below, unix_now, push_char};
use crate::user::domain::User;

verus! {

/// The characters session tokens are drawn from.
pub const CHARSET: &'static str =
    "ABCDEFGHIJKLMNOPQRSTUVWXYZabcdefghijklmnopqrstuvwxyz0123456789)(*&^%$#@!~?][+-";

/// The time `timeout` seconds after `now`, or the largest time when that is out of range.
pub open spec fn expiry(now: u64, timeout: u64) -> u64 {
    if now + timeout > u64::MAX {
        u64::MAX
    } else {
        (now + timeout) as u64
    }
}

fn expiry_exec(now: u64, timeout: u64) -> (r: u64)
    ensures
        r == expiry(now, timeout),
{
    now.saturating_add(timeout)
}

/// The claims of a session: expiry, issue time, issuer and subject (the user's id).
#[derive(Debug, PartialEq, Eq, Clone)]
pub struct SessionToken {
    pub exp: u64,
    pub iat: u64,
    pub iss: String,
    pub sub: i32,
}

impl SessionToken {
    /// A token for `sub` issued by `iss` at `now`, expiring `timeout` seconds later.
    pub fn new_at(iss: &str, sub: i32, now: u64, timeout: u64) -> (t: SessionToken)
        ensures
            t.iss@ == iss@,
            t.sub == sub,
            t.iat == now,
            t.exp == expiry(now, timeout),
    {
        SessionToken { exp: expiry_exec(now, timeout), iat: now, iss: iss.to_owned(), sub }
    }

    /// A copy of the token.
    pub fn duplicate(&self) -> (t: SessionToken)
        ensures
            t == *self,
    {
        SessionToken { exp: self.exp, iat: self.iat, iss: self.iss.clone(), sub: self.sub }
    }

    /// A token for `sub` issued by `iss` now, expiring `timeout` seconds later.
    pub fn new(iss: &str, sub: i32, timeout: u64) -> (t: SessionToken)
        ensures
            t.iss@ == iss@,
            t.sub == sub,
            t.exp == expiry(t.iat, timeout),
    {
        Self::new_at(iss, sub, unix_now(), timeout)
    }
}

/// A live session of a user, identified by its token.
#[derive(Debug, PartialEq, Eq, Clone)]
pub struct Session {
    pub token: String,
    /// When the session ends, in Unix seconds.
    pub deadline: u64,
    pub user: User,
    /// `updated_at` works as a touch time: it follows every read or write the user makes
    /// over the session's data.
    pub meta: Metadata,
}

pub open spec fn charset() -> Seq<char> {
    CHARSET@
}

/// A token of `size` characters, each from `CHARSET`.
pub open spec fn is_token_of(t: Seq<char>, size: nat) -> bool {
    t.len() == size && forall|i: int| 0 <= i < t.len() ==> charset().contains(#[trigger] t[i])
}

impl Session {
    /// A session of `user` identified by `token`, ending `timeout` seconds after `now`.
    pub fn new_at(user: User, token: String, timeout: u64, meta: Metadata, now: u64) -> (s: Session)
        ensures
            s.user == user,
            s.token == token,
            s.meta == meta,
            s.deadline == expiry(now, timeout),
    {
        Session { token, deadline: expiry_exec(now, timeout), user, meta }
    }

    /// A session of `user` identified by `token`, ending `timeout` seconds from now.
    pub fn new(user: User, token: String, timeout: u64, meta: Metadata) -> (s: Session)
        ensures
            s.user == user,
            s.token == token,
            s.meta == meta,
            s.deadline >= timeout,
    {
        Self::new_at(user, token, timeout, meta, unix_now())
    }

    /// A random token of `size` characters drawn from `CHARSET`.
    pub fn generate_token(size: usize) -> (t: String)
        ensures
            is_token_of(t@, size as nat),
    {
        proof {
            reveal_strlit(
                "ABCDEFGHIJKLMNOPQRSTUVWXYZabcdefghijklmnopqrstuvwxyz0123456789)(*&^%$#@!~?][+-",
            );
        }
        let n = CHARSET.unicode_len();
        let mut t = String::new();
        let mut i: usize = 0;
        while i < size
            invariant
                i <= size,
                n == charset().len(),
                n > 0,
                is_token_of(t@, i as nat),
            decreases size - i,
        {
            let k = random_below(n);
            let c = CHARSET.get_char(k);
            assert(charset()[k as int] == c);
            push_char(&mut t, c);
            assert(t@[i as int] == c);
            i = i + 1;
        }
        t
    }
}

/// Why a session could not be stored.
#[derive(Debug, PartialEq, Eq, Clone)]
pub enum SaveError {
    /// A stored session already has the session's token.
    TokenExists,
    /// A stored session already belongs to a user with the same email.
    EmailExists,
    /// The freshly drawn token is taken; the session is handed back to draw another.
    TokenTaken(Session),
}

/// Stores sessions by token.
pub trait SessionRepository {
    /// The session identified by `token`.
    fn find(&self, token: &str) -> Result<&Session, AuthError>;

    /// The session of the user with the email `email`.
    fn find_by_email(&self, email: &str) -> Result<&Session, AuthError>;

    /// Stores `session` under the freshly drawn `token`.
    fn save(&mut self, session: Session, token: String) -> Result<(), SaveError>;

    /// Removes the session identified by `session.token`.
    fn delete(&mut self, session: &Session) -> Result<(), AuthError>;
}

} // verus!
