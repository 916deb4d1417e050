//! The in-memory session store and the session service of the framework layer.
use vstd::prelude::*;
use crate::constants::ERR_USER_NOT_VERIFIED;
use crate::errors::{error_message, AuthError};
use crate::grpc::{Code, Status};
use crate::session::grpc::{answer, answered};
use crate::secret::domain::Secret;
use crate::user::domain::User;
use crate::user::framework::PostgresUserRepository;
use crate::regex::same_text;
use crate::session::domain::{SaveError, Session, SessionRepository};

verus! {

/// The store's error for a token or an email it holds no session for.
pub const STORE_NOT_FOUND: &'static str = "Not found";

/// The store's error for removing a session whose token it does not hold.
pub const STORE_NO_TOKEN: &'static str = "token does not exists";

/// Some stored session has the token `t`.
pub open spec fn has_token(s: Seq<Session>, t: Seq<char>) -> bool {
    exists|i: int| 0 <= i < s.len() && (#[trigger] s[i]).token@ == t
}

/// Some stored session belongs to a user with the email `e`.
pub open spec fn has_email(s: Seq<Session>, e: Seq<char>) -> bool {
    exists|i: int| 0 <= i < s.len() && (#[trigger] s[i]).user.email@ == e
}

/// No two stored sessions share a token, and no two share a user email.
pub open spec fn unique_keys(s: Seq<Session>) -> bool {
    forall|i: int, j: int|
        0 <= i < s.len() && 0 <= j < s.len() && i != j ==> (#[trigger] s[i]).token@ != (
        #[trigger] s[j]).token@ && s[i].user.email@ != s[j].user.email@
}

/// The stored session with the token `t`, if any.
pub open spec fn find_spec(s: Seq<Session>, t: Seq<char>) -> Option<Session> {
    if has_token(s, t) {
        Some(s[choose|i: int| 0 <= i < s.len() && (#[trigger] s[i]).token@ == t])
    } else {
        None
    }
}

/// The stored session of the user with the email `e`, if any.
pub open spec fn find_by_email_spec(s: Seq<Session>, e: Seq<char>) -> Option<Session> {
    if has_email(s, e) {
        Some(s[choose|i: int| 0 <= i < s.len() && (#[trigger] s[i]).user.email@ == e])
    } else {
        None
    }
}

/// `session` as stored under `token`.
pub open spec fn stored_as(session: Session, token: String) -> Session {
    Session { token: token, deadline: session.deadline, user: session.user, meta: session.meta }
}

/// The sessions with the session of token `t` removed.
pub open spec fn without_token(s: Seq<Session>, t: Seq<char>) -> Seq<Session> {
    s.filter(|x: Session| x.token@ != t)
}

/// Keeps every live session in memory, keyed by its token.
pub struct InMemorySessionRepository {
    all_instances: Vec<Session>,
    _group_by_app: Vec<(String, Vec<String>)>,
}

impl View for InMemorySessionRepository {
    type V = Seq<Session>;

    closed spec fn view(&self) -> Seq<Session> {
        self.all_instances@
    }
}

/// The position of the session with the token `token`, if any.
fn position_of_token(v: &Vec<Session>, token: &str) -> (r: Option<usize>)
    ensures
        r matches Some(i) ==> i < v@.len() && v@[i as int].token@ == token@,
        r is None ==> !has_token(v@, token@),
{
    let mut i: usize = 0;
    while i < v.len()
        invariant
            i <= v@.len(),
            forall|k: int| 0 <= k < i ==> (#[trigger] v@[k]).token@ != token@,
        decreases v@.len() - i,
    {
        if same_text(v[i].token.as_str(), token) {
            return Some(i);
        }
        i = i + 1;
    }
    None
}

/// The position of the session of the user with the email `email`, if any.
fn position_of_email(v: &Vec<Session>, email: &str) -> (r: Option<usize>)
    ensures
        r matches Some(i) ==> i < v@.len() && v@[i as int].user.email@ == email@,
        r is None ==> !has_email(v@, email@),
{
    let mut i: usize = 0;
    while i < v.len()
        invariant
            i <= v@.len(),
            forall|k: int| 0 <= k < i ==> (#[trigger] v@[k]).user.email@ != email@,
        decreases v@.len() - i,
    {
        if InMemorySessionRepository::session_has_email(&v[i], email) {
            return Some(i);
        }
        i = i + 1;
    }
    None
}

proof fn lemma_find_at(s: Seq<Session>, i: int)
    requires
        unique_keys(s),
        0 <= i < s.len(),
    ensures
        find_spec(s, s[i].token@) == Some(s[i]),
        find_by_email_spec(s, s[i].user.email@) == Some(s[i]),
{
    let t = s[i].token@;
    assert(has_token(s, t));
    let j = choose|j: int| 0 <= j < s.len() && (#[trigger] s[j]).token@ == t;
    if j != i {
        assert(s[i].token@ != s[j].token@);
    }
    let e = s[i].user.email@;
    assert(has_email(s, e));
    let k = choose|k: int| 0 <= k < s.len() && (#[trigger] s[k]).user.email@ == e;
    if k != i {
        assert(s[i].user.email@ != s[k].user.email@);
    }
}

impl InMemorySessionRepository {
    #[verifier::type_invariant]
    spec fn keys_unique(&self) -> bool {
        unique_keys(self.all_instances@)
    }

    /// An empty store.
    pub fn new() -> (r: InMemorySessionRepository)
        ensures
            r@ == Seq::<Session>::empty(),
    {
        InMemorySessionRepository { all_instances: Vec::new(), _group_by_app: Vec::new() }
    }

    /// Whether `sess` belongs to the user with the email `email`.
    pub fn session_has_email(sess: &Session, email: &str) -> (r: bool)
        ensures
            r == (sess.user.email@ == email@),
    {
        same_text(sess.user.email.as_str(), email)
    }
}

impl SessionRepository for InMemorySessionRepository {
    /// The session with the token `token`; the store's error "Not found" when there is none.
    fn find(&self, token: &str) -> (r: Result<&Session, AuthError>)
        ensures
            unique_keys(self@),
            match r {
                Ok(s) => find_spec(self@, token@) == Some(*s),
                Err(e) => find_spec(self@, token@) is None && (e matches AuthError::Repository(m)
                    && m@ == STORE_NOT_FOUND@),
            },
    {
        proof {
            use_type_invariant(self);
        }
        match position_of_token(&self.all_instances, token) {
            Some(i) => {
                proof {
                    lemma_find_at(self@, i as int);
                }
                Ok(&self.all_instances[i])
            },
            None => Err(AuthError::Repository(STORE_NOT_FOUND.to_owned())),
        }
    }

    /// The session of the user with the email `email`; the store's error "Not found" when
    /// there is none.
    fn find_by_email(&self, email: &str) -> (r: Result<&Session, AuthError>)
        ensures
            unique_keys(self@),
            match r {
                Ok(s) => find_by_email_spec(self@, email@) == Some(*s),
                Err(e) => find_by_email_spec(self@, email@) is None && (e matches AuthError::Repository(
                    m,
                ) && m@ == STORE_NOT_FOUND@),
            },
    {
        proof {
            use_type_invariant(self);
        }
        match position_of_email(&self.all_instances, email) {
            Some(i) => {
                proof {
                    lemma_find_at(self@, i as int);
                }
                Ok(&self.all_instances[i])
            },
            None => Err(AuthError::Repository(STORE_NOT_FOUND.to_owned())),
        }
    }

    /// Stores `session` under `token`. Refused, leaving the store unchanged, when a stored
    /// session already has `session.token` (`TokenExists`), belongs to a user with the same
    /// email (`EmailExists`), or has `token` (`TokenTaken`, handing `session` back).
    fn save(&mut self, session: Session, token: String) -> (r: Result<(), SaveError>)
        ensures
            unique_keys(old(self)@),
            unique_keys(final(self)@),
            has_token(old(self)@, session.token@) ==> r matches Err(SaveError::TokenExists),
            !has_token(old(self)@, session.token@) && has_email(old(self)@, session.user.email@)
                ==> r matches Err(SaveError::EmailExists),
            !has_token(old(self)@, session.token@) && !has_email(old(self)@, session.user.email@)
                && has_token(old(self)@, token@) ==> (r matches Err(SaveError::TokenTaken(s)) && s
                == session),
            r is Err ==> final(self)@ == old(self)@,
            r is Ok <==> !has_token(old(self)@, session.token@) && !has_email(
                old(self)@,
                session.user.email@,
            ) && !has_token(old(self)@, token@),
            r is Ok ==> final(self)@ == old(self)@.push(stored_as(session, token)),
    {
        proof {
            use_type_invariant(&*self);
        }
        if position_of_token(&self.all_instances, session.token.as_str()).is_some() {
            return Err(SaveError::TokenExists);
        }
        if position_of_email(&self.all_instances, session.user.email.as_str()).is_some() {
            return Err(SaveError::EmailExists);
        }
        if position_of_token(&self.all_instances, token.as_str()).is_some() {
            return Err(SaveError::TokenTaken(session));
        }
        let new_session = Session {
            token,
            deadline: session.deadline,
            user: session.user,
            meta: session.meta,
        };
        let ghost old_v = self.all_instances@;
        let mut v: Vec<Session> = Vec::new();
        std::mem::swap(&mut v, &mut self.all_instances);
        assert(v@ == old_v);
        v.push(new_session);
        assert forall|i: int, j: int|
            0 <= i < v@.len() && 0 <= j < v@.len() && i != j implies (#[trigger] v@[i]).token@ != (
            #[trigger] v@[j]).token@ && v@[i].user.email@ != v@[j].user.email@ by {
            if i == old_v.len() {
                assert(v@[j] == old_v[j]);
            } else if j == old_v.len() {
                assert(v@[i] == old_v[i]);
            } else {
                assert(v@[i] == old_v[i]);
                assert(v@[j] == old_v[j]);
            }
        }
        self.all_instances = v;
        Ok(())
    }

    /// Removes the session with the token `session.token`; the store's error "token does not
    /// exists", leaving the store unchanged, when there is none.
    fn delete(&mut self, session: &Session) -> (r: Result<(), AuthError>)
        ensures
            unique_keys(old(self)@),
            unique_keys(final(self)@),
            r is Ok <==> has_token(old(self)@, session.token@),
            r is Err ==> (r matches Err(AuthError::Repository(m)) && m@ == STORE_NO_TOKEN@)
                && final(self)@ == old(self)@,
            r is Ok ==> final(self)@ == without_token(old(self)@, session.token@),
    {
        proof {
            use_type_invariant(&*self);
        }
        match position_of_token(&self.all_instances, session.token.as_str()) {
            None => Err(AuthError::Repository(STORE_NO_TOKEN.to_owned())),
            Some(i) => {
                let ghost old_v = self.all_instances@;
                let mut v: Vec<Session> = Vec::new();
                std::mem::swap(&mut v, &mut self.all_instances);
                v.remove(i);
                proof {
                    lemma_remove_is_filter(old_v, i as int);
                }
                assert forall|a: int, b: int|
                    0 <= a < v@.len() && 0 <= b < v@.len() && a != b implies (
                    #[trigger] v@[a]).token@ != (#[trigger] v@[b]).token@ && v@[a].user.email@
                    != v@[b].user.email@ by {
                    let a2 = if a < i { a } else { a + 1 };
                    let b2 = if b < i { b } else { b + 1 };
                    assert(v@[a] == old_v[a2]);
                    assert(v@[b] == old_v[b2]);
                }
                self.all_instances = v;
                Ok(())
            },
        }
    }
}

/// Where a login of the framework's session service stands.
#[derive(Debug, PartialEq, Eq, Structural, Clone, Copy)]
pub enum LoginStep {
    Start,
    UserAsked,
    PasswordAsked,
    SessionAsked,
}

/// What the login asks next, or how it ends.
#[derive(Debug, PartialEq, Eq)]
pub enum LoginAction {
    /// Look up the user by this identity.
    FindUser(String),
    /// Check the password against the user's secret bytes.
    CheckPassword(Vec<u8>, String),
    /// Open a session of the identity in the application.
    OpenSession(String, String),
    /// Over: the session token, or the failure.
    Finish(Result<String, Status>),
}

/// What the request held or a collaborator answered.
#[derive(Debug, PartialEq, Eq)]
pub enum LoginEvent {
    /// The request: identity, password and application.
    Begin(String, String, String),
    UserFound(Result<User, AuthError>),
    PasswordChecked(Result<(), AuthError>),
    SessionOpened(Result<String, AuthError>),
}

pub open spec fn login_expects(step: LoginStep, event: LoginEvent) -> bool {
    match step {
        LoginStep::Start => event is Begin,
        LoginStep::UserAsked => event is UserFound,
        LoginStep::PasswordAsked => event is PasswordChecked,
        LoginStep::SessionAsked => event is SessionOpened,
    }
}

/// The session service of the framework layer over its stores.
pub struct SessionServiceImplementation<A: 'static, D: 'static> {
    pub sess_repo: &'static InMemorySessionRepository,
    pub user_repo: &'static PostgresUserRepository,
    pub app_repo: &'static A,
    pub dir_repo: &'static D,
}

impl<A: 'static, D: 'static> SessionServiceImplementation<A, D> {
    pub fn new(
        sess_repo: &'static InMemorySessionRepository,
        user_repo: &'static PostgresUserRepository,
        app_repo: &'static A,
        dir_repo: &'static D,
    ) -> (r: Self)
        ensures
            r.sess_repo == sess_repo,
            r.user_repo == user_repo,
            r.app_repo == app_repo,
            r.dir_repo == dir_repo,
    {
        SessionServiceImplementation { sess_repo, user_repo, app_repo, dir_repo }
    }

    /// One step of a login: the user is looked up by identity (`NotFound` with the error's
    /// text if that fails), must have a secret (`Unauthenticated`, "user not verified"), and
    /// the password is checked against it (`Unauthenticated` with the error's text if wrong);
    /// then a session is opened in the application (`Aborted` with the error's text if that
    /// fails) and its token is the answer. `ident`, `pwd` and `app` are those of the request.
    pub fn login_step(
        ident: &str,
        pwd: &str,
        app: &str,
        step: LoginStep,
        event: LoginEvent,
    ) -> (r: (LoginStep, LoginAction))
        requires
            login_expects(step, event),
        ensures
            event is Begin ==> r.0 == LoginStep::UserAsked && (r.1 matches LoginAction::FindUser(i)
                && i@ == ident@),
            event matches LoginEvent::UserFound(found) ==> match found {
                Err(e) => r.1 matches LoginAction::Finish(Err(s)) && s.code == Code::NotFound
                    && s.message@ == error_message(e),
                Ok(u) => match u.secret {
                    None => r.1 matches LoginAction::Finish(Err(s)) && s.code
                        == Code::Unauthenticated && s.message@ == ERR_USER_NOT_VERIFIED@,
                    Some(sec) => r.0 == LoginStep::PasswordAsked && (r.1 matches LoginAction::CheckPassword(
                        d,
                        p,
                    ) && d@ == sec.data@ && p@ == pwd@),
                },
            },
            event matches LoginEvent::PasswordChecked(c) ==> match c {
                Err(e) => r.1 matches LoginAction::Finish(Err(s)) && s.code
                    == Code::Unauthenticated && s.message@ == error_message(e),
                Ok(_) => r.0 == LoginStep::SessionAsked && (r.1 matches LoginAction::OpenSession(
                    i,
                    a,
                ) && i@ == ident@ && a@ == app@),
            },
            event matches LoginEvent::SessionOpened(o) ==> (r.1 matches LoginAction::Finish(a)
                && answered(o, a, Code::Aborted)),
    {
        match event {
            LoginEvent::Begin(_, _, _) => (LoginStep::UserAsked, LoginAction::FindUser(ident.to_owned())),
            LoginEvent::UserFound(found) => match Self::login_secret(&found) {
                Err(s) => (step, LoginAction::Finish(Err(s))),
                Ok(sec) => (
                    LoginStep::PasswordAsked,
                    LoginAction::CheckPassword(vstd::slice::slice_to_vec(sec.get_data()), pwd.to_owned()),
                ),
            },
            LoginEvent::PasswordChecked(c) => match c {
                Err(e) => (step, LoginAction::Finish(Err(Status::with_message(Code::Unauthenticated, e.message())))),
                Ok(_) => (LoginStep::SessionAsked, LoginAction::OpenSession(ident.to_owned(), app.to_owned())),
            },
            LoginEvent::SessionOpened(o) => (step, LoginAction::Finish(answer(o, Code::Aborted))),
        }
    }

    /// The first step of a login: the secret of the user looked up, whose password is then
    /// checked against it. A failed lookup is answered with `NotFound` and the error's text, a
    /// user without a secret with `Unauthenticated` ("user not verified").
    pub fn login_secret(user_search: &Result<User, AuthError>) -> (r: Result<&Secret, Status>)
        ensures
            match user_search {
                Err(e) => r matches Err(s) && s.code == Code::NotFound && s.message@
                    == error_message(*e),
                Ok(u) => match u.secret {
                    None => r matches Err(s) && s.code == Code::Unauthenticated && s.message@
                        == ERR_USER_NOT_VERIFIED@,
                    Some(sec) => r matches Ok(x) && *x == sec,
                },
            },
    {
        match user_search {
            Err(e) => Err(Status::with_message(Code::NotFound, e.message())),
            Ok(u) => match &u.secret {
                None => Err(Status::new(Code::Unauthenticated, ERR_USER_NOT_VERIFIED)),
                Some(sec) => Ok(sec),
            },
        }
    }
}

/// A session stored under a fresh token is found again by that token and by its user's email,
/// sessions under other tokens are found as before, and tokens and emails stay unique.
pub proof fn law_saved_session_found(s: Seq<Session>, session: Session, token: String, other: Seq<char>)
    requires
        unique_keys(s),
        !has_token(s, session.token@),
        !has_email(s, session.user.email@),
        !has_token(s, token@),
        other != token@,
    ensures
        unique_keys(s.push(stored_as(session, token))),
        find_spec(s.push(stored_as(session, token)), token@) == Some(stored_as(session, token)),
        find_by_email_spec(s.push(stored_as(session, token)), session.user.email@) == Some(
            stored_as(session, token),
        ),
        find_spec(s.push(stored_as(session, token)), other) == find_spec(s, other),
{
    let n = s.push(stored_as(session, token));
    assert forall|i: int, j: int|
        0 <= i < n.len() && 0 <= j < n.len() && i != j implies (#[trigger] n[i]).token@ != (
        #[trigger] n[j]).token@ && n[i].user.email@ != n[j].user.email@ by {
        if i < s.len() {
            assert(n[i] == s[i]);
        }
        if j < s.len() {
            assert(n[j] == s[j]);
        }
    }
    lemma_find_at(n, s.len() as int);
    if has_token(s, other) {
        let k = choose|k: int| 0 <= k < s.len() && (#[trigger] s[k]).token@ == other;
        assert(n[k] == s[k]);
        lemma_find_at(s, k);
        lemma_find_at(n, k);
    } else {
        assert forall|k: int| 0 <= k < n.len() implies (#[trigger] n[k]).token@ != other by {
            if k < s.len() {
                assert(n[k] == s[k]);
            }
        }
    }
}

/// After the session with a token is deleted, that token finds nothing, and every other token
/// finds what it found before.
pub proof fn law_deleted_session_gone(s: Seq<Session>, t: Seq<char>, other: Seq<char>)
    requires
        unique_keys(s),
        has_token(s, t),
        other != t,
    ensures
        find_spec(without_token(s, t), t) is None,
        find_spec(without_token(s, t), other) == find_spec(s, other),
{
    let i = choose|i: int| 0 <= i < s.len() && (#[trigger] s[i]).token@ == t;
    lemma_remove_is_filter(s, i);
    let n = s.remove(i);
    assert forall|k: int| 0 <= k < n.len() implies (#[trigger] n[k]).token@ != t by {
        let k2 = if k < i { k } else { k + 1 };
        assert(n[k] == s[k2]);
    }
    assert(unique_keys(n)) by {
        assert forall|a: int, b: int|
            0 <= a < n.len() && 0 <= b < n.len() && a != b implies (#[trigger] n[a]).token@ != (
            #[trigger] n[b]).token@ && n[a].user.email@ != n[b].user.email@ by {
            let a2 = if a < i { a } else { a + 1 };
            let b2 = if b < i { b } else { b + 1 };
            assert(n[a] == s[a2]);
            assert(n[b] == s[b2]);
        }
    }
    if has_token(s, other) {
        let k = choose|k: int| 0 <= k < s.len() && (#[trigger] s[k]).token@ == other;
        assert(k != i);
        let k2 = if k < i { k } else { k - 1 };
        assert(n[k2] == s[k]);
        lemma_find_at(s, k);
        lemma_find_at(n, k2);
    } else {
        assert forall|k: int| 0 <= k < n.len() implies (#[trigger] n[k]).token@ != other by {
            let k2 = if k < i { k } else { k + 1 };
            assert(n[k] == s[k2]);
        }
    }
}

/// Removing a session just stored under a fresh token gives back the sessions held before:
/// the keys are those of before, and neither the token nor the email of the session's user
/// is found any more.
pub proof fn law_delete_undoes_save(s: Seq<Session>, session: Session, token: String)
    requires
        unique_keys(s),
        !has_token(s, token@),
        !has_email(s, session.user.email@),
    ensures
        without_token(s.push(stored_as(session, token)), token@) == s,
        unique_keys(without_token(s.push(stored_as(session, token)), token@)),
        find_spec(without_token(s.push(stored_as(session, token)), token@), token@) is None,
        find_by_email_spec(
            without_token(s.push(stored_as(session, token)), token@),
            session.user.email@,
        ) is None,
{
    reveal_with_fuel(Seq::filter, 1);
    let n = s.push(stored_as(session, token));
    assert(n.drop_last() =~= s);
    assert forall|k: int| 0 <= k < s.len() implies (#[trigger] s[k]).token@ != token@ by {}
    lemma_filter_keeps_all(s, token@);
    assert(without_token(n, token@) == without_token(s, token@));
}

/// Removing the only session with a token is filtering it out.
proof fn lemma_remove_is_filter(s: Seq<Session>, i: int)
    requires
        unique_keys(s),
        0 <= i < s.len(),
    ensures
        s.remove(i) == without_token(s, s[i].token@),
    decreases s.len(),
{
    reveal_with_fuel(Seq::filter, 1);
    let t = s[i].token@;
    let p = s.drop_last();
    assert(without_token(s, t) == if s.last().token@ != t {
        without_token(p, t).push(s.last())
    } else {
        without_token(p, t)
    });
    if i == s.len() - 1 {
        assert(s.remove(i) == p);
        assert forall|k: int| 0 <= k < p.len() implies (#[trigger] p[k]).token@ != t by {
            assert(p[k] == s[k]);
        }
        lemma_filter_keeps_all(p, t);
    } else {
        assert(unique_keys(p)) by {
            assert forall|a: int, b: int|
                0 <= a < p.len() && 0 <= b < p.len() && a != b implies (#[trigger] p[a]).token@ != (
                #[trigger] p[b]).token@ && p[a].user.email@ != p[b].user.email@ by {
                assert(p[a] == s[a]);
                assert(p[b] == s[b]);
            }
        }
        assert(p[i] == s[i]);
        lemma_remove_is_filter(p, i);
        assert(s.last().token@ != t) by {
            assert(s[s.len() - 1].token@ != s[i].token@);
        }
        assert(s.remove(i) =~= p.remove(i).push(s.last()));
    }
}

/// Filtering out a token no session has keeps every session.
proof fn lemma_filter_keeps_all(s: Seq<Session>, t: Seq<char>)
    requires
        forall|k: int| 0 <= k < s.len() ==> (#[trigger] s[k]).token@ != t,
    ensures
        without_token(s, t) == s,
    decreases s.len(),
{
    reveal_with_fuel(Seq::filter, 1);
    if s.len() > 0 {
        let p = s.drop_last();
        assert forall|k: int| 0 <= k < p.len() implies (#[trigger] p[k]).token@ != t by {
            assert(p[k] == s[k]);
        }
        lemma_filter_keeps_all(p, t);
        assert(s.last() == s[s.len() - 1]);
        assert(without_token(s, t) == without_token(p, t).push(s.last()));
        assert(p.push(s.last()) =~= s);
    }
}

} // verus!
