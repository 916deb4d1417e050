//! The login transaction.
use vstd::prelude::*;
use crate::errors::AuthError;
use crate::transaction::traits::Body;

verus! {

/// A login request: the client's cookie, the user's name, the client's address and the password.
#[derive(Debug, PartialEq, Eq)]
pub struct TxLogin {
    cookie: String,
    name: String,
    addr: String,
    pwd: String,
}

impl TxLogin {
    pub closed spec fn cookie(&self) -> Seq<char> {
        self.cookie@
    }

    pub closed spec fn name(&self) -> Seq<char> {
        self.name@
    }

    pub closed spec fn addr(&self) -> Seq<char> {
        self.addr@
    }

    pub closed spec fn pwd(&self) -> Seq<char> {
        self.pwd@
    }

    pub fn new(cookie: String, name: String, addr: String, pwd: String) -> (tx: Self)
        ensures
            tx.cookie() == cookie@,
            tx.name() == name@,
            tx.addr() == addr@,
            tx.pwd() == pwd@,
    {
        TxLogin { cookie: cookie, name: name, addr: addr, pwd: pwd }
    }
}

impl Body for TxLogin {
    /// Nothing is checked before the login.
    fn precondition(&self) -> (r: Result<(), String>)
        ensures
            r is Ok,
    {
        Ok(())
    }

    /// The login's outcome: an empty text.
    fn postcondition(&self) -> (r: Result<String, String>)
        ensures
            r matches Ok(s) && s@ == Seq::<char>::empty(),
    {
        Ok(String::new())
    }

    /// Committing a login changes nothing and succeeds.
    fn commit(&self) -> (r: Result<(), AuthError>)
        ensures
            r is Ok,
    {
        Ok(())
    }

    /// Undoing a login does nothing.
    fn rollback(&self) {
    }
}

} // verus!
