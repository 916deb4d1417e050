//! Users as rows bound to their client.
use vstd::prelude::*;
use crate::errors::AuthError;
use crate::models::client::Client;
use crate::models::enums::{kind_name, Kind};
use crate::security::push_char;

verus! {

/// Read access to a user and its client.
pub trait Ctrl {
    fn get_client_id(&self) -> i32;

    fn get_id(&self) -> i32;

    fn get_email(&self) -> &str;

    fn get_name(&self) -> &str;
}

/// A stored user: its id, its client's id and its email.
#[derive(Debug, PartialEq, Eq, Clone)]
pub struct User {
    pub id: i32,
    pub client_id: i32,
    pub email: String,
}

/// A user together with its client.
#[derive(Debug, PartialEq, Eq, Clone)]
pub struct Wrapper {
    user: User,
    client: Client,
}

impl Wrapper {
    pub closed spec fn user(&self) -> User {
        self.user
    }

    pub closed spec fn client(&self) -> Client {
        self.client
    }
}

impl User {
    /// The user bound to `client`.
    pub fn build(&self, client: Client) -> (r: Result<Wrapper, AuthError>)
        ensures
            r is Ok,
            r->Ok_0.user() == *self,
            r->Ok_0.client() == client,
    {
        let user = User { id: self.id, client_id: self.client_id, email: self.email.clone() };
        Ok(Wrapper { user, client })
    }
}

impl Ctrl for Wrapper {
    fn get_client_id(&self) -> (r: i32)
        ensures
            r == self.client().id,
    {
        self.client.get_id()
    }

    fn get_id(&self) -> (r: i32)
        ensures
            r == self.user().id,
    {
        self.user.id
    }

    fn get_email(&self) -> (r: &str)
        ensures
            r@ == self.user().email@,
    {
        self.user.email.as_str()
    }

    fn get_name(&self) -> (r: &str)
        ensures
            r@ == self.client().name@,
    {
        self.client.get_name()
    }
}

/// The first of the rows a lookup returned; `NotFound` when there is none.
pub fn first_row<T>(rows: Vec<T>) -> (r: Result<T, AuthError>)
    ensures
        rows@.len() == 0 ==> r == Err::<T, AuthError>(AuthError::NotFound),
        rows@.len() > 0 ==> r == Ok::<T, AuthError>(rows@[0]),
{
    let mut rows = rows;
    if rows.len() == 0 {
        Err(AuthError::NotFound)
    } else {
        Ok(rows.swap_remove(0))
    }
}

/// How `{:?}` writes a string: quoted, with quotes, backslashes and control characters escaped.
pub uninterp spec fn debug_text(s: Seq<char>) -> Seq<char>;

/// Calls `format!("{:?}", s)`. Claimed: the result is the `Debug` text of `s`, named
/// `debug_text`.
#[verifier::external_body]
fn debug_str(s: &str) -> (r: String)
    ensures
        r@ == debug_text(s@),
{
    format!("{:?}", s)
}

/// The message refusing a client that is not a user.
pub open spec fn not_a_user_message(name: Seq<char>) -> Seq<char> {
    seq!['C', 'l', 'i', 'e', 'n', 't', ' '] + debug_text(name) + seq![
        ' ', 'i', 's', ' ', 'n', 'o', 't', ' ', 'o', 'f', ' ', 't', 'h', 'e', ' ', 't', 'y', 'p', 'e', ' ',
    ] + debug_text(kind_name(Kind::USER))
}

fn append_chars(s: &mut String, cs: &Vec<char>)
    ensures
        final(s)@ == old(s)@ + cs@,
{
    let mut i: usize = 0;
    while i < cs.len()
        invariant
            i <= cs@.len(),
            s@ == old(s)@ + cs@.take(i as int),
        decreases cs@.len() - i,
    {
        push_char(s, cs[i]);
        assert(cs@.take(i + 1) == cs@.take(i as int).push(cs@[i as int]));
        i = i + 1;
    }
    assert(cs@.take(cs@.len() as int) == cs@);
}

/// Accepts a client looked up by name only when it is a user; otherwise the error names it.
pub fn check_user_kind(client: &Client) -> (r: Result<(), AuthError>)
    ensures
        client.kind == Kind::USER ==> r is Ok,
        client.kind != Kind::USER ==> (r matches Err(AuthError::Repository(m)) && m@
            == not_a_user_message(client.name@)),
{
    if client.get_kind() == Kind::USER {
        return Ok(());
    }
    let mut msg = String::new();
    append_chars(&mut msg, &vec!['C', 'l', 'i', 'e', 'n', 't', ' ']);
    let name = debug_str(client.get_name());
    msg.append(name.as_str());
    append_chars(
        &mut msg,
        &vec![' ', 'i', 's', ' ', 'n', 'o', 't', ' ', 'o', 'f', ' ', 't', 'h', 'e', ' ', 't', 'y', 'p', 'e', ' '],
    );
    let kind = Kind::USER.to_string();
    let kind_dbg = debug_str(kind.as_str());
    msg.append(kind_dbg.as_str());
    Err(AuthError::Repository(msg))
}

} // verus!
