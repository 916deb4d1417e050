//! The login and logout use cases.
use vstd::prelude::*;
use std::sync::Arc;
use crate::constants::{PWD_SUFIX, TOKEN_ISSUER, TOTP_SECRET_NAME};
use crate::errors::AuthError;
use crate::regex::{is_email, match_email};
use crate::secret::application::SecretRepository;
use crate::secret::domain::Secret;
use crate::security::{shadow, shadow_spec, totp_code_valid, unix_now, verify_totp};
use crate::session::domain::{expiry, SessionToken};
use crate::user::application::UserRepository;
use crate::user::domain::User;

verus! {

/// Stores the session token of each user; implemented by the service's storage layer.
///
/// Each operation's answer is described by a relation that an implementation may define: what
/// it may answer for given arguments. Unless it says otherwise, any answer is possible.
pub trait SessionRepository {
    /// `r` is an answer this store gives to a lookup of the session of `user_id`.
    closed spec fn answers_find(&self, user_id: i32, r: Result<SessionToken, AuthError>) -> bool {
        true
    }

    /// `r` is an answer this store gives when asked to store `token`.
    closed spec fn answers_save(&self, token: SessionToken, r: Result<(), AuthError>) -> bool {
        true
    }

    /// `r` is an answer this store gives when asked to remove the session of `user_id`.
    closed spec fn answers_delete(&self, user_id: i32, r: Result<(), AuthError>) -> bool {
        true
    }

    /// The session token of the user `user_id`.
    fn find(&self, user_id: i32) -> (r: Result<SessionToken, AuthError>)
        ensures
            self.answers_find(user_id, r),
    ;

    /// Stores `token` as the session of the user `token.sub`.
    fn save(&self, token: &SessionToken) -> (r: Result<(), AuthError>)
        ensures
            self.answers_save(*token, r),
    ;

    /// Removes the session of the user `user_id`.
    fn delete(&self, user_id: i32) -> (r: Result<(), AuthError>)
        ensures
            self.answers_delete(user_id, r),
    ;
}

/// The login and logout use cases over the session, user and secret repositories.
pub struct SessionApplication<S: SessionRepository, U: UserRepository, E: SecretRepository> {
    pub session_repo: Arc<S>,
    pub user_repo: Arc<U>,
    pub secret_repo: Arc<E>,
    /// How long a new session lasts, in seconds.
    pub lifetime: u64,
}

/// The user has a second factor: its TOTP secret was found and is not deleted.
pub open spec fn totp_active(secret: Result<Secret, AuthError>) -> bool {
    secret is Ok && secret->Ok_0.meta.deleted_at is None
}

/// `t` is the token of a new session of `sub`, issued at `now`, lasting `lifetime` seconds.
pub open spec fn is_new_token(t: SessionToken, sub: i32, now: u64, lifetime: u64) -> bool {
    &&& t.iss@ == TOKEN_ISSUER@
    &&& t.sub == sub
    &&& t.iat == now
    &&& t.exp == expiry(now, lifetime)
}

/// `pwd`, shadowed, is the password of `u`.
pub open spec fn password_matches(u: User, pwd: Seq<char>) -> bool {
    u.password@ == shadow_spec(pwd, PWD_SUFIX@)
}

/// Where a login stands; from the lookup of the user on, it carries the user found.
#[derive(Debug, PartialEq, Eq, Clone)]
pub enum LoginPhase {
    Start,
    /// The user was looked up.
    UserAsked,
    /// The user's TOTP secret was looked up.
    SecretAsked(User),
    /// The code was handed to the TOTP check.
    CodeAsked(User),
    /// The user's session was looked up.
    SessionAsked(User),
    /// The clock was read to issue a new session.
    ClockAsked(User),
    /// The new session was handed to the session store.
    SaveAsked(User, SessionToken),
}

/// What a login asks next, or how it ends.
#[derive(Debug, PartialEq, Eq)]
pub enum LoginRequest {
    /// Look up the user whose email is this.
    FindUserByEmail(String),
    /// Look up the user whose name is this.
    FindUserByName(String),
    /// Look up the secret of this user with this name.
    FindSecret(i32, String),
    /// Check this code against this TOTP key.
    CheckCode(Vec<u8>, String),
    /// Look up the session of this user.
    FindSession(i32),
    /// Read the clock.
    ReadClock,
    /// Store this new session.
    SaveSession(SessionToken),
    /// The login is over, with this outcome.
    Finish(Result<SessionToken, AuthError>),
}

/// What the request held or a collaborator answered.
#[derive(Debug, PartialEq, Eq)]
pub enum LoginAnswer {
    Begin,
    UserFound(Result<User, AuthError>),
    SecretFound(Result<Secret, AuthError>),
    CodeChecked(Result<bool, AuthError>),
    SessionFound(Result<SessionToken, AuthError>),
    ClockRead(u64),
    Saved(Result<(), AuthError>),
}

/// The answer each phase waits for.
pub open spec fn login_expects(phase: LoginPhase, answer: LoginAnswer) -> bool {
    match phase {
        LoginPhase::Start => answer is Begin,
        LoginPhase::UserAsked => answer is UserFound,
        LoginPhase::SecretAsked(_) => answer is SecretFound,
        LoginPhase::CodeAsked(_) => answer is CodeChecked,
        LoginPhase::SessionAsked(_) => answer is SessionFound,
        LoginPhase::ClockAsked(_) => answer is ClockRead,
        LoginPhase::SaveAsked(_, _) => answer is Saved,
    }
}

/// `answer` is of the kind `request` asks for.
pub open spec fn login_answers(request: LoginRequest, answer: LoginAnswer) -> bool {
    match request {
        LoginRequest::FindUserByEmail(_) => answer is UserFound,
        LoginRequest::FindUserByName(_) => answer is UserFound,
        LoginRequest::FindSecret(_, _) => answer is SecretFound,
        LoginRequest::CheckCode(_, _) => answer is CodeChecked,
        LoginRequest::FindSession(_) => answer is SessionFound,
        LoginRequest::ReadClock => answer is ClockRead,
        LoginRequest::SaveSession(_) => answer is Saved,
        LoginRequest::Finish(_) => false,
    }
}

/// One step of a login with identity `ident`, password `pwd` and TOTP code `totp`, for
/// sessions lasting `lifetime` seconds: from `phase`, on `answer`, the login moves to `next`
/// and makes `request`.
///
/// The user is looked up by email when `ident` is an email and by name otherwise; a failed
/// lookup ends the login with its error, and a user whose shadowed password does not match
/// ends it with `NotFound`. The user's secret named `TOTP_SECRET_NAME` is looked up: if it is
/// active (found and not deleted), a code is required (`Unauthorized` without one) and is
/// checked against the secret's bytes (`Unauthorized` if rejected, the check's error if it
/// fails); if not, the code is ignored. Then the user's session is looked up and returned if
/// there is one; otherwise the clock is read, a new session for the user issued by
/// `TOKEN_ISSUER` at that time and lasting `lifetime` is stored, and it is returned, or the
/// store's error.
pub open spec fn login_transition(
    ident: Seq<char>,
    pwd: Seq<char>,
    totp: Seq<char>,
    lifetime: u64,
    phase: LoginPhase,
    answer: LoginAnswer,
    next: LoginPhase,
    request: LoginRequest,
) -> bool {
    match answer {
        LoginAnswer::Begin => next == LoginPhase::UserAsked && if is_email(ident) {
            request matches LoginRequest::FindUserByEmail(i) && i@ == ident
        } else {
            request matches LoginRequest::FindUserByName(i) && i@ == ident
        },
        LoginAnswer::UserFound(found) => match found {
            Err(e) => next == phase && request == LoginRequest::Finish(Err(e)),
            Ok(u) => if !password_matches(u, pwd) {
                next == phase && request == LoginRequest::Finish(Err(AuthError::NotFound))
            } else {
                next == LoginPhase::SecretAsked(u) && (request matches LoginRequest::FindSecret(
                    id,
                    n,
                ) && id == u.id && n@ == TOTP_SECRET_NAME@)
            },
        },
        LoginAnswer::SecretFound(s) => phase matches LoginPhase::SecretAsked(u) && if !totp_active(
            s,
        ) {
            next == LoginPhase::SessionAsked(u) && request == LoginRequest::FindSession(u.id)
        } else if totp.len() == 0 {
            next == phase && request == LoginRequest::Finish(Err(AuthError::Unauthorized))
        } else {
            next == LoginPhase::CodeAsked(u) && (request matches LoginRequest::CheckCode(d, c)
                && d@ == s->Ok_0.data@ && c@ == totp)
        },
        LoginAnswer::CodeChecked(c) => phase matches LoginPhase::CodeAsked(u) && match c {
            Ok(true) => next == LoginPhase::SessionAsked(u) && request == LoginRequest::FindSession(
                u.id,
            ),
            Ok(false) => next == phase && request == LoginRequest::Finish(
                Err(AuthError::Unauthorized),
            ),
            Err(e) => next == phase && request == LoginRequest::Finish(Err(e)),
        },
        LoginAnswer::SessionFound(f) => phase matches LoginPhase::SessionAsked(u) && match f {
            Ok(t) => next == phase && request == LoginRequest::Finish(Ok(t)),
            Err(_) => next == LoginPhase::ClockAsked(u) && request == LoginRequest::ReadClock,
        },
        LoginAnswer::ClockRead(now) => phase matches LoginPhase::ClockAsked(u) && (
        next matches LoginPhase::SaveAsked(u2, t) && u2 == u && is_new_token(
            t,
            u.id,
            now,
            lifetime,
        ) && request == LoginRequest::SaveSession(t)),
        LoginAnswer::Saved(w) => phase matches LoginPhase::SaveAsked(u, t) && next == phase
            && match w {
            Ok(_) => request == LoginRequest::Finish(Ok(t)),
            Err(e) => request == LoginRequest::Finish(Err(e)),
        },
    }
}

/// One round of a login: the phase, the answer received in it, the phase moved to and the
/// request made.
pub struct LoginRound {
    pub phase: LoginPhase,
    pub answer: LoginAnswer,
    pub next: LoginPhase,
    pub request: LoginRequest,
}

/// Round `i` of `run` starts where round `i - 1` moved to, with an answer of the kind that
/// round asked for.
pub open spec fn login_linked(run: Seq<LoginRound>, i: int) -> bool {
    &&& run[i].phase == run[i - 1].next
    &&& login_answers(run[i - 1].request, run[i].answer)
}

/// `run` is a login from its start: each round follows `login_transition`, and each later
/// round is linked to the one before it.
pub open spec fn login_prefix(
    ident: Seq<char>,
    pwd: Seq<char>,
    totp: Seq<char>,
    lifetime: u64,
    run: Seq<LoginRound>,
) -> bool {
    &&& run.len() > 0
    &&& run[0].phase == LoginPhase::Start
    &&& run[0].answer == LoginAnswer::Begin
    &&& forall|i: int|
        0 <= i < run.len() ==> login_transition(
            ident,
            pwd,
            totp,
            lifetime,
            (#[trigger] run[i]).phase,
            run[i].answer,
            run[i].next,
            run[i].request,
        )
    &&& forall|i: int| 0 < i < run.len() ==> #[trigger] login_linked(run, i)
}

/// `run` is a whole login that ended with `r`.
pub open spec fn login_run(
    ident: Seq<char>,
    pwd: Seq<char>,
    totp: Seq<char>,
    lifetime: u64,
    run: Seq<LoginRound>,
    r: Result<SessionToken, AuthError>,
) -> bool {
    &&& login_prefix(ident, pwd, totp, lifetime, run)
    &&& run.last().request == LoginRequest::Finish(r)
}

/// How far a phase is from the end of a login.
pub open spec fn login_rank(phase: LoginPhase) -> nat {
    match phase {
        LoginPhase::Start => 7,
        LoginPhase::UserAsked => 6,
        LoginPhase::SecretAsked(_) => 5,
        LoginPhase::CodeAsked(_) => 4,
        LoginPhase::SessionAsked(_) => 3,
        LoginPhase::ClockAsked(_) => 2,
        LoginPhase::SaveAsked(_, _) => 1,
    }
}

/// What a login run has gone through by its round `i`, read off the round's phase.
pub open spec fn round_facts(
    pwd: Seq<char>,
    totp: Seq<char>,
    lifetime: u64,
    run: Seq<LoginRound>,
    i: int,
) -> bool {
    match run[i].phase {
        LoginPhase::Start => i == 0,
        LoginPhase::UserAsked => i == 1,
        LoginPhase::SecretAsked(u) => i == 2 && run[1].answer == LoginAnswer::UserFound(Ok(u))
            && password_matches(u, pwd) && run[1].request == LoginRequest::FindSecret(
            u.id,
            run[1].request->FindSecret_1,
        ) && run[1].request->FindSecret_1@ == TOTP_SECRET_NAME@,
        LoginPhase::CodeAsked(u) => i == 3 && run[1].answer == LoginAnswer::UserFound(Ok(u))
            && password_matches(u, pwd) && run[2].answer is SecretFound && totp_active(
            run[2].answer->SecretFound_0,
        ) && totp.len() != 0,
        LoginPhase::SessionAsked(u) => run[1].answer == LoginAnswer::UserFound(Ok(u))
            && password_matches(u, pwd) && run[2].answer is SecretFound && run[i - 1].request
            == LoginRequest::FindSession(u.id) && ((i == 3 && !totp_active(
            run[2].answer->SecretFound_0,
        )) || (i == 4 && totp_active(run[2].answer->SecretFound_0) && totp.len() != 0
            && run[3].answer == LoginAnswer::CodeChecked(Ok(true)))),
        LoginPhase::ClockAsked(u) => i >= 4 && run[i - 1].phase == LoginPhase::SessionAsked(u)
            && run[i - 1].answer is SessionFound && run[i - 1].answer->SessionFound_0 is Err,
        LoginPhase::SaveAsked(u, t) => i >= 5 && run[i - 1].phase == LoginPhase::ClockAsked(u)
            && run[i - 1].answer is ClockRead && run[i - 1].request == LoginRequest::SaveSession(t)
            && is_new_token(t, u.id, run[i - 1].answer->ClockRead_0, lifetime),
    }
}

proof fn lemma_round_facts(
    ident: Seq<char>,
    pwd: Seq<char>,
    totp: Seq<char>,
    lifetime: u64,
    run: Seq<LoginRound>,
    i: int,
)
    requires
        login_prefix(ident, pwd, totp, lifetime, run),
        0 <= i < run.len(),
    ensures
        round_facts(pwd, totp, lifetime, run, i),
    decreases i,
{
    if i > 0 {
        lemma_round_facts(ident, pwd, totp, lifetime, run, i - 1);
        assert(login_linked(run, i));
        let prev = run[i - 1];
        assert(login_transition(ident, pwd, totp, lifetime, prev.phase, prev.answer, prev.next, prev.request));
        if i >= 2 {
            lemma_round_facts(ident, pwd, totp, lifetime, run, i - 2);
            assert(login_linked(run, i - 1));
        }
    }
}

/// The rounds of a login run before its last do not end it.
proof fn lemma_only_last_finishes(
    ident: Seq<char>,
    pwd: Seq<char>,
    totp: Seq<char>,
    lifetime: u64,
    run: Seq<LoginRound>,
    i: int,
)
    requires
        login_prefix(ident, pwd, totp, lifetime, run),
        0 <= i < run.len(),
        run[i].request is Finish,
    ensures
        i == run.len() - 1,
{
    if i < run.len() - 1 {
        assert(login_linked(run, i + 1));
    }
}

/// A login run that succeeds went through the user its lookup found, whose shadowed password
/// matches, and who either has no active TOTP secret or gave a non-empty code that the TOTP
/// check accepted; the session returned is the one found for that user or a new one issued
/// to it and stored.
pub proof fn law_login_run_success(
    ident: Seq<char>,
    pwd: Seq<char>,
    totp: Seq<char>,
    lifetime: u64,
    run: Seq<LoginRound>,
    t: SessionToken,
)
    requires
        login_run(ident, pwd, totp, lifetime, run, Ok(t)),
    ensures
        run.len() >= 4,
        run[1].answer is UserFound,
        run[1].answer->UserFound_0 is Ok,
        password_matches(run[1].answer->UserFound_0->Ok_0, pwd),
        run[1].request == LoginRequest::FindSecret(
            run[1].answer->UserFound_0->Ok_0.id,
            run[1].request->FindSecret_1,
        ),
        run[1].request->FindSecret_1@ == TOTP_SECRET_NAME@,
        run[2].answer is SecretFound,
        !totp_active(run[2].answer->SecretFound_0) || (totp.len() != 0 && run[3].answer
            == LoginAnswer::CodeChecked(Ok(true))),
        (run.last().answer == LoginAnswer::SessionFound(Ok(t)) && run[run.len() - 2].request
            == LoginRequest::FindSession(run[1].answer->UserFound_0->Ok_0.id)) || (
        run.last().answer is Saved && run.last().answer->Saved_0 is Ok && run[run.len() - 2].request
            == LoginRequest::SaveSession(t) && t.sub == run[1].answer->UserFound_0->Ok_0.id
            && t.iss@ == TOKEN_ISSUER@),
{
    let k = run.len() - 1;
    lemma_round_facts(ident, pwd, totp, lifetime, run, k);
    assert(login_transition(ident, pwd, totp, lifetime, run[k].phase, run[k].answer, run[k].next, run[k].request));
    if k >= 1 {
        lemma_round_facts(ident, pwd, totp, lifetime, run, k - 1);
    }
    if k >= 2 {
        lemma_round_facts(ident, pwd, totp, lifetime, run, k - 2);
    }
    lemma_round_facts(ident, pwd, totp, lifetime, run, 2);
    if let LoginPhase::SaveAsked(u, t2) = run[k].phase {
        assert(run[k - 1].phase == LoginPhase::ClockAsked(u));
        assert(run[k - 2].phase == LoginPhase::SessionAsked(u));
        assert(run[1].answer == LoginAnswer::UserFound(Ok(u)));
        assert(t2 == t);
        assert(run[k].answer is Saved && run[k].answer->Saved_0 is Ok);
        assert(run[k - 1].request == LoginRequest::SaveSession(t));
    } else {
        assert(run[k].phase is SessionAsked);
        assert(run[k].answer == LoginAnswer::SessionFound(Ok(t)));
        assert(run[k - 1].request == LoginRequest::FindSession(run[1].answer->UserFound_0->Ok_0.id));
    }
}

/// The user is looked up by email when the identity is an email, and by name otherwise.
pub proof fn law_lookup_follows_identity(
    ident: Seq<char>,
    pwd: Seq<char>,
    totp: Seq<char>,
    lifetime: u64,
    run: Seq<LoginRound>,
)
    requires
        login_prefix(ident, pwd, totp, lifetime, run),
    ensures
        is_email(ident) ==> (run[0].request matches LoginRequest::FindUserByEmail(i) && i@
            == ident),
        !is_email(ident) ==> (run[0].request matches LoginRequest::FindUserByName(i) && i@
            == ident),
{
    assert(login_transition(ident, pwd, totp, lifetime, run[0].phase, run[0].answer, run[0].next, run[0].request));
}

/// A failed user lookup ends the login with its error, asking nothing more; a user whose
/// shadowed password does not match ends it with `NotFound`, asking nothing more.
pub proof fn law_user_refusals(
    ident: Seq<char>,
    pwd: Seq<char>,
    totp: Seq<char>,
    lifetime: u64,
    run: Seq<LoginRound>,
    r: Result<SessionToken, AuthError>,
)
    requires
        login_run(ident, pwd, totp, lifetime, run, r),
    ensures
        run.len() >= 2,
        run[1].answer is UserFound,
        run[1].answer->UserFound_0 is Err ==> run.len() == 2 && r == Err::<SessionToken, AuthError>(
            run[1].answer->UserFound_0->Err_0,
        ),
        run[1].answer->UserFound_0 is Ok && !password_matches(run[1].answer->UserFound_0->Ok_0, pwd)
            ==> run.len() == 2 && r == Err::<SessionToken, AuthError>(AuthError::NotFound),
{
    assert(login_transition(ident, pwd, totp, lifetime, run[0].phase, run[0].answer, run[0].next, run[0].request));
    if run.len() < 2 {
        assert(run[0].request is Finish);
    }
    assert(login_linked(run, 1));
    lemma_round_facts(ident, pwd, totp, lifetime, run, 1);
    assert(login_transition(ident, pwd, totp, lifetime, run[1].phase, run[1].answer, run[1].next, run[1].request));
    if run[1].request is Finish {
        lemma_only_last_finishes(ident, pwd, totp, lifetime, run, 1);
    }
}

/// For a user with an active TOTP secret, no code ends the login with `Unauthorized`, and so
/// does a code the check rejects; a failing check ends it with the check's error. No session
/// is looked up or stored in these cases.
pub proof fn law_totp_refusals(
    ident: Seq<char>,
    pwd: Seq<char>,
    totp: Seq<char>,
    lifetime: u64,
    run: Seq<LoginRound>,
    r: Result<SessionToken, AuthError>,
)
    requires
        login_run(ident, pwd, totp, lifetime, run, r),
        run.len() >= 3,
        run[2].answer is SecretFound,
        totp_active(run[2].answer->SecretFound_0),
    ensures
        totp.len() == 0 ==> run.len() == 3 && r == Err::<SessionToken, AuthError>(
            AuthError::Unauthorized,
        ),
        run.len() >= 4 && run[3].answer == LoginAnswer::CodeChecked(Ok(false)) ==> run.len() == 4
            && r == Err::<SessionToken, AuthError>(AuthError::Unauthorized),
        run.len() >= 4 && run[3].answer is CodeChecked && run[3].answer->CodeChecked_0 is Err
            ==> run.len() == 4 && r == Err::<SessionToken, AuthError>(
            run[3].answer->CodeChecked_0->Err_0,
        ),
{
    lemma_round_facts(ident, pwd, totp, lifetime, run, 2);
    assert(login_transition(ident, pwd, totp, lifetime, run[2].phase, run[2].answer, run[2].next, run[2].request));
    if run[2].request is Finish {
        lemma_only_last_finishes(ident, pwd, totp, lifetime, run, 2);
    }
    if run.len() >= 4 {
        assert(login_linked(run, 3));
        lemma_round_facts(ident, pwd, totp, lifetime, run, 3);
        assert(login_transition(ident, pwd, totp, lifetime, run[3].phase, run[3].answer, run[3].next, run[3].request));
        if run[3].request is Finish {
            lemma_only_last_finishes(ident, pwd, totp, lifetime, run, 3);
        }
    }
}

/// For a user without an active TOTP secret, the code is never checked, and the same run,
/// with the same requests and answers, is a login with any other code.
pub proof fn law_totp_ignored_when_inactive(
    ident: Seq<char>,
    pwd: Seq<char>,
    totp1: Seq<char>,
    totp2: Seq<char>,
    lifetime: u64,
    run: Seq<LoginRound>,
    r: Result<SessionToken, AuthError>,
)
    requires
        login_run(ident, pwd, totp1, lifetime, run, r),
        run.len() >= 3,
        run[2].answer is SecretFound,
        !totp_active(run[2].answer->SecretFound_0),
    ensures
        forall|i: int| 0 <= i < run.len() ==> !((#[trigger] run[i]).request is CheckCode),
        login_run(ident, pwd, totp2, lifetime, run, r),
{
    assert forall|i: int| 0 <= i < run.len() implies !((#[trigger] run[i]).request is CheckCode)
        && login_transition(ident, pwd, totp2, lifetime, run[i].phase, run[i].answer, run[i].next, run[i].request) by {
        lemma_round_facts(ident, pwd, totp1, lifetime, run, i);
        assert(login_transition(ident, pwd, totp1, lifetime, run[i].phase, run[i].answer, run[i].next, run[i].request));
        if i >= 1 {
            lemma_round_facts(ident, pwd, totp1, lifetime, run, i - 1);
        }
    }
}

/// A TOTP secret that is not deleted, as enabling the second factor stores it, makes the code
/// required: when a login's secret lookup answers it, a login without a code is refused
/// `Unauthorized`, and a login with a code hands that code to the TOTP check with the secret's
/// bytes as key.
pub proof fn law_stored_secret_requires_the_code(
    ident: Seq<char>,
    pwd: Seq<char>,
    totp: Seq<char>,
    lifetime: u64,
    run: Seq<LoginRound>,
    r: Result<SessionToken, AuthError>,
    s: Secret,
)
    requires
        login_run(ident, pwd, totp, lifetime, run, r),
        run.len() >= 3,
        run[2].answer == LoginAnswer::SecretFound(Ok(s)),
        s.meta.deleted_at is None,
    ensures
        totp.len() == 0 ==> r == Err::<SessionToken, AuthError>(AuthError::Unauthorized),
        totp.len() != 0 ==> run.len() >= 4 && (run[2].request matches LoginRequest::CheckCode(d, c)
            && d@ == s.data@ && c@ == totp),
{
    assert(totp_active(Ok(s)));
    law_totp_refusals(ident, pwd, totp, lifetime, run, r);
    lemma_round_facts(ident, pwd, totp, lifetime, run, 2);
    assert(login_transition(ident, pwd, totp, lifetime, run[2].phase, run[2].answer, run[2].next, run[2].request));
    if totp.len() != 0 && run.len() == 3 {
        assert(run.last() == run[2]);
    }
}

/// A code is handed to the TOTP check if, and only if, the user's TOTP secret is active and a
/// code was given; it happens right after the secret lookup.
pub proof fn law_code_checked_iff_active(
    ident: Seq<char>,
    pwd: Seq<char>,
    totp: Seq<char>,
    lifetime: u64,
    run: Seq<LoginRound>,
    i: int,
)
    requires
        login_prefix(ident, pwd, totp, lifetime, run),
        0 <= i < run.len(),
    ensures
        run[i].request is CheckCode <==> (i == 2 && run[2].answer is SecretFound && totp_active(
            run[2].answer->SecretFound_0,
        ) && totp.len() != 0),
{
    lemma_round_facts(ident, pwd, totp, lifetime, run, i);
    assert(login_transition(ident, pwd, totp, lifetime, run[i].phase, run[i].answer, run[i].next, run[i].request));
}

/// Once the credentials are accepted, a session found for the user ends the login with that
/// session, and nothing is stored; otherwise the new session stored ends it, or the store's
/// error.
pub proof fn law_session_outcome(
    ident: Seq<char>,
    pwd: Seq<char>,
    totp: Seq<char>,
    lifetime: u64,
    run: Seq<LoginRound>,
    r: Result<SessionToken, AuthError>,
    i: int,
)
    requires
        login_run(ident, pwd, totp, lifetime, run, r),
        0 <= i < run.len(),
        run[i].answer is SessionFound,
    ensures
        run[i].answer->SessionFound_0 is Ok ==> i == run.len() - 1 && r == Ok::<
            SessionToken,
            AuthError,
        >(run[i].answer->SessionFound_0->Ok_0),
        run[i].answer->SessionFound_0 is Err ==> i == run.len() - 3 && run[i].request
            == LoginRequest::ReadClock && run[i + 1].request is SaveSession && (run[i + 2].answer
            ->Saved_0 is Ok ==> r == Ok::<SessionToken, AuthError>(
            run[i + 1].request->SaveSession_0,
        )) && (run[i + 2].answer->Saved_0 is Err ==> r == Err::<SessionToken, AuthError>(
            run[i + 2].answer->Saved_0->Err_0,
        )),
        run[i].answer->SessionFound_0 is Err ==> is_new_token(
            run[i + 1].request->SaveSession_0,
            run[1].answer->UserFound_0->Ok_0.id,
            run[i + 1].answer->ClockRead_0,
            lifetime,
        ),
{
    lemma_round_facts(ident, pwd, totp, lifetime, run, i);
    assert(login_transition(ident, pwd, totp, lifetime, run[i].phase, run[i].answer, run[i].next, run[i].request));
    if run[i].request is Finish {
        lemma_only_last_finishes(ident, pwd, totp, lifetime, run, i);
    } else {
        assert(login_linked(run, i + 1));
        assert(login_transition(ident, pwd, totp, lifetime, run[i + 1].phase, run[i + 1].answer, run[i + 1].next, run[i + 1].request));
        assert(login_linked(run, i + 2));
        assert(login_transition(ident, pwd, totp, lifetime, run[i + 2].phase, run[i + 2].answer, run[i + 2].next, run[i + 2].request));
        lemma_only_last_finishes(ident, pwd, totp, lifetime, run, i + 2);
    }
}

/// What the second-factor step of a login does once the user's TOTP secret was looked up.
#[derive(Debug, PartialEq, Eq, Structural, Clone, Copy)]
pub enum SecondFactor {
    /// No active secret: the code is not looked at.
    Skip,
    /// An active secret and no code: the login is refused.
    Missing,
    /// An active secret and a code: the code is checked.
    Check,
}

/// Decides the second-factor step from the secret lookup and the given code.
pub fn second_factor(secret: &Result<Secret, AuthError>, totp: &str) -> (d: SecondFactor)
    ensures
        d is Skip <==> !totp_active(*secret),
        d is Missing <==> totp_active(*secret) && totp@.len() == 0,
        d is Check <==> totp_active(*secret) && totp@.len() != 0,
{
    match secret {
        Ok(s) => {
            if s.is_deleted() {
                SecondFactor::Skip
            } else if totp.unicode_len() == 0 {
                SecondFactor::Missing
            } else {
                SecondFactor::Check
            }
        },
        Err(_) => SecondFactor::Skip,
    }
}

impl<S: SessionRepository, U: UserRepository, E: SecretRepository> SessionApplication<S, U, E> {
    /// One step of a login (see `login_transition`).
    pub fn login_step(
        &self,
        ident: &str,
        pwd: &str,
        totp: &str,
        phase: LoginPhase,
        answer: LoginAnswer,
    ) -> (r: (LoginPhase, LoginRequest))
        requires
            login_expects(phase, answer),
        ensures
            login_transition(ident@, pwd@, totp@, self.lifetime, phase, answer, r.0, r.1),
    {
        match answer {
            LoginAnswer::Begin => {
                if match_email(ident).is_ok() {
                    (LoginPhase::UserAsked, LoginRequest::FindUserByEmail(ident.to_owned()))
                } else {
                    (LoginPhase::UserAsked, LoginRequest::FindUserByName(ident.to_owned()))
                }
            },
            LoginAnswer::UserFound(found) => match found {
                Err(e) => (phase, LoginRequest::Finish(Err(e))),
                Ok(u) => {
                    let shadowed = shadow(pwd, PWD_SUFIX);
                    if !u.match_password(shadowed.as_str()) {
                        (phase, LoginRequest::Finish(Err(AuthError::NotFound)))
                    } else {
                        let id = u.get_id();
                        (
                            LoginPhase::SecretAsked(u),
                            LoginRequest::FindSecret(id, TOTP_SECRET_NAME.to_owned()),
                        )
                    }
                },
            },
            LoginAnswer::SecretFound(s) => {
                let u = match phase {
                    LoginPhase::SecretAsked(u) => u,
                    _ => {
                        return (LoginPhase::Start, LoginRequest::ReadClock);
                    },
                };
                match second_factor(&s, totp) {
                    SecondFactor::Skip => {
                        let id = u.get_id();
                        (LoginPhase::SessionAsked(u), LoginRequest::FindSession(id))
                    },
                    SecondFactor::Missing => (
                        LoginPhase::SecretAsked(u),
                        LoginRequest::Finish(Err(AuthError::Unauthorized)),
                    ),
                    SecondFactor::Check => {
                        let data = match &s {
                            Ok(sec) => vstd::slice::slice_to_vec(sec.get_data()),
                            Err(_) => Vec::new(),
                        };
                        (LoginPhase::CodeAsked(u), LoginRequest::CheckCode(data, totp.to_owned()))
                    },
                }
            },
            LoginAnswer::CodeChecked(c) => {
                let u = match phase {
                    LoginPhase::CodeAsked(u) => u,
                    _ => {
                        return (LoginPhase::Start, LoginRequest::ReadClock);
                    },
                };
                match c {
                    Ok(true) => {
                        let id = u.get_id();
                        (LoginPhase::SessionAsked(u), LoginRequest::FindSession(id))
                    },
                    Ok(false) => (
                        LoginPhase::CodeAsked(u),
                        LoginRequest::Finish(Err(AuthError::Unauthorized)),
                    ),
                    Err(e) => (LoginPhase::CodeAsked(u), LoginRequest::Finish(Err(e))),
                }
            },
            LoginAnswer::SessionFound(f) => {
                let u = match phase {
                    LoginPhase::SessionAsked(u) => u,
                    _ => {
                        return (LoginPhase::Start, LoginRequest::ReadClock);
                    },
                };
                match f {
                    Ok(t) => (LoginPhase::SessionAsked(u), LoginRequest::Finish(Ok(t))),
                    Err(_) => (LoginPhase::ClockAsked(u), LoginRequest::ReadClock),
                }
            },
            LoginAnswer::ClockRead(now) => {
                let u = match phase {
                    LoginPhase::ClockAsked(u) => u,
                    _ => {
                        return (LoginPhase::Start, LoginRequest::ReadClock);
                    },
                };
                let t = SessionToken::new_at(TOKEN_ISSUER, u.get_id(), now, self.lifetime);
                let copy = t.duplicate();
                (LoginPhase::SaveAsked(u, t), LoginRequest::SaveSession(copy))
            },
            LoginAnswer::Saved(w) => {
                let (u, t) = match phase {
                    LoginPhase::SaveAsked(u, t) => (u, t),
                    _ => {
                        return (LoginPhase::Start, LoginRequest::ReadClock);
                    },
                };
                let copy = t.duplicate();
                match w {
                    Ok(_) => (LoginPhase::SaveAsked(u, t), LoginRequest::Finish(Ok(copy))),
                    Err(e) => (LoginPhase::SaveAsked(u, t), LoginRequest::Finish(Err(e))),
                }
            },
        }
    }

    /// `answer` is one that the stores, the TOTP check or the clock give to `request`: the
    /// stores' answers are those their relations admit for the request's arguments, and the
    /// TOTP check's verdict is whether the code is the key's code at some time step.
    pub open spec fn admits(&self, request: LoginRequest, answer: LoginAnswer) -> bool {
        match request {
            LoginRequest::FindUserByEmail(e) => answer matches LoginAnswer::UserFound(x)
                && self.user_repo.answers_find_by_email(e@, x),
            LoginRequest::FindUserByName(n) => answer matches LoginAnswer::UserFound(x)
                && self.user_repo.answers_find_by_name(n@, x),
            LoginRequest::FindSecret(id, n) => answer matches LoginAnswer::SecretFound(x)
                && self.secret_repo.answers_find_secret(id, n@, x),
            LoginRequest::CheckCode(d, c) => answer matches LoginAnswer::CodeChecked(x) && (
            x matches Ok(b) && exists|step: u64| b == totp_code_valid(d@, c@, step)),
            LoginRequest::FindSession(id) => answer matches LoginAnswer::SessionFound(x)
                && self.session_repo.answers_find(id, x),
            LoginRequest::ReadClock => answer is ClockRead,
            LoginRequest::SaveSession(t) => answer matches LoginAnswer::Saved(x)
                && self.session_repo.answers_save(t, x),
            LoginRequest::Finish(_) => false,
        }
    }

    /// Round `i` of `run` received an answer that its collaborator gives to the request of
    /// round `i - 1`.
    pub open spec fn login_replied(&self, run: Seq<LoginRound>, i: int) -> bool {
        self.admits(run[i - 1].request, run[i].answer)
    }

    /// `r` is how a login with `ident`, `pwd` and `totp` ends: through a login run whose every
    /// answer is one its collaborator gives to the request made.
    pub open spec fn login_outcome(
        &self,
        ident: Seq<char>,
        pwd: Seq<char>,
        totp: Seq<char>,
        r: Result<SessionToken, AuthError>,
    ) -> bool {
        exists|run: Seq<LoginRound>|
            #[trigger] login_run(ident, pwd, totp, self.lifetime, run, r) && forall|i: int|
                0 < i < run.len() ==> #[trigger] self.login_replied(run, i)
    }

    /// The user the lookup by `ident` can answer `r`: by email when `ident` is an email, by name
    /// otherwise.
    pub open spec fn user_lookup(&self, ident: Seq<char>, r: Result<User, AuthError>) -> bool {
        if is_email(ident) {
            self.user_repo.answers_find_by_email(ident, r)
        } else {
            self.user_repo.answers_find_by_name(ident, r)
        }
    }

    /// A login that succeeds returned a session of the user that the lookup by `ident`
    /// answered, whose shadowed password matches `pwd`, whose TOTP secret lookup answered a
    /// secret that is not active or who gave a non-empty code; that session is one the session
    /// store answered for the user, or a new one issued to the user by `TOKEN_ISSUER` that the
    /// store accepted.
    pub proof fn law_login_success_requires_credentials(
        &self,
        ident: Seq<char>,
        pwd: Seq<char>,
        totp: Seq<char>,
        t: SessionToken,
    )
        requires
            self.login_outcome(ident, pwd, totp, Ok(t)),
        ensures
            exists|u: User, s: Result<Secret, AuthError>|
                #![trigger self.user_lookup(ident, Ok(u)), self.secret_repo.answers_find_secret(u.id, TOTP_SECRET_NAME@, s)]
                {
                    &&& self.user_lookup(ident, Ok(u))
                    &&& password_matches(u, pwd)
                    &&& self.secret_repo.answers_find_secret(u.id, TOTP_SECRET_NAME@, s)
                    &&& (!totp_active(s) || totp.len() != 0)
                    &&& (self.session_repo.answers_find(u.id, Ok(t)) || (t.sub == u.id && t.iss@
                        == TOKEN_ISSUER@ && self.session_repo.answers_save(t, Ok(()))))
                },
    {
        let run = choose|run: Seq<LoginRound>|
            #[trigger] login_run(ident, pwd, totp, self.lifetime, run, Ok(t)) && forall|i: int|
                0 < i < run.len() ==> #[trigger] self.login_replied(run, i);
        law_login_run_success(ident, pwd, totp, self.lifetime, run, t);
        law_lookup_follows_identity(ident, pwd, totp, self.lifetime, run);
        let u = run[1].answer->UserFound_0->Ok_0;
        let s = run[2].answer->SecretFound_0;
        let k = run.len() - 1;
        assert(self.login_replied(run, 1));
        assert(self.login_replied(run, 2));
        assert(self.login_replied(run, k));
        assert(self.user_lookup(ident, Ok(u)));
        assert(self.secret_repo.answers_find_secret(u.id, TOTP_SECRET_NAME@, s));
        if run[k].answer is Saved {
            let w = run[k].answer->Saved_0;
            assert(w->Ok_0 == ());
            assert(w == Ok::<(), AuthError>(()));
            assert(self.session_repo.answers_save(t, Ok(())));
        } else {
            assert(self.session_repo.answers_find(u.id, Ok(t)));
        }
    }

    /// When the user store answers the lookup by `ident` only with the error `e`, a login ends
    /// with `e`.
    pub proof fn law_login_passes_lookup_error_on(
        &self,
        ident: Seq<char>,
        pwd: Seq<char>,
        totp: Seq<char>,
        r: Result<SessionToken, AuthError>,
        e: AuthError,
    )
        requires
            self.login_outcome(ident, pwd, totp, r),
            forall|x: Result<User, AuthError>| #[trigger] self.user_lookup(ident, x) ==> x == Err::<User, AuthError>(e),
        ensures
            r == Err::<SessionToken, AuthError>(e),
    {
        let run = choose|run: Seq<LoginRound>|
            #[trigger] login_run(ident, pwd, totp, self.lifetime, run, r) && forall|i: int|
                0 < i < run.len() ==> #[trigger] self.login_replied(run, i);
        law_user_refusals(ident, pwd, totp, self.lifetime, run, r);
        law_lookup_follows_identity(ident, pwd, totp, self.lifetime, run);
        assert(self.login_replied(run, 1));
        assert(self.user_lookup(ident, run[1].answer->UserFound_0));
    }

    /// When the user store answers the lookup by `ident` only with a user whose shadowed
    /// password is not `pwd`'s, a login ends with `NotFound`.
    pub proof fn law_login_refuses_wrong_password(
        &self,
        ident: Seq<char>,
        pwd: Seq<char>,
        totp: Seq<char>,
        r: Result<SessionToken, AuthError>,
        u: User,
    )
        requires
            self.login_outcome(ident, pwd, totp, r),
            forall|x: Result<User, AuthError>| #[trigger] self.user_lookup(ident, x) ==> x == Ok::<User, AuthError>(u),
            !password_matches(u, pwd),
        ensures
            r == Err::<SessionToken, AuthError>(AuthError::NotFound),
    {
        let run = choose|run: Seq<LoginRound>|
            #[trigger] login_run(ident, pwd, totp, self.lifetime, run, r) && forall|i: int|
                0 < i < run.len() ==> #[trigger] self.login_replied(run, i);
        law_user_refusals(ident, pwd, totp, self.lifetime, run, r);
        law_lookup_follows_identity(ident, pwd, totp, self.lifetime, run);
        assert(self.login_replied(run, 1));
        assert(self.user_lookup(ident, run[1].answer->UserFound_0));
    }

    /// When the stores answer only that `ident` is the user `u`, whose shadowed password is
    /// `pwd`'s, that `u` has the TOTP secret lookup answer `s`, not active, and that `u`'s
    /// session is `t`, a login ends with `t`, whatever the code.
    pub proof fn law_login_reuses_the_session(
        &self,
        ident: Seq<char>,
        pwd: Seq<char>,
        totp: Seq<char>,
        r: Result<SessionToken, AuthError>,
        u: User,
        s: Result<Secret, AuthError>,
        t: SessionToken,
    )
        requires
            self.login_outcome(ident, pwd, totp, r),
            forall|x: Result<User, AuthError>| #[trigger] self.user_lookup(ident, x) ==> x == Ok::<User, AuthError>(u),
            password_matches(u, pwd),
            forall|x: Result<Secret, AuthError>|
                #[trigger] self.secret_repo.answers_find_secret(u.id, TOTP_SECRET_NAME@, x) ==> x == s,
            !totp_active(s),
            forall|x: Result<SessionToken, AuthError>|
                #[trigger] self.session_repo.answers_find(u.id, x) ==> x == Ok::<SessionToken, AuthError>(t),
        ensures
            r == Ok::<SessionToken, AuthError>(t),
    {
        let run = choose|run: Seq<LoginRound>|
            #[trigger] login_run(ident, pwd, totp, self.lifetime, run, r) && forall|i: int|
                0 < i < run.len() ==> #[trigger] self.login_replied(run, i);
        law_user_refusals(ident, pwd, totp, self.lifetime, run, r);
        law_lookup_follows_identity(ident, pwd, totp, self.lifetime, run);
        assert(self.login_replied(run, 1));
        assert(self.user_lookup(ident, run[1].answer->UserFound_0));
        lemma_round_facts(ident, pwd, totp, self.lifetime, run, 1);
        assert(login_transition(ident, pwd, totp, self.lifetime, run[1].phase, run[1].answer, run[1].next, run[1].request));
        assert(login_linked(run, 2));
        assert(self.login_replied(run, 2));
        assert(self.secret_repo.answers_find_secret(u.id, TOTP_SECRET_NAME@, run[2].answer->SecretFound_0));
        lemma_round_facts(ident, pwd, totp, self.lifetime, run, 2);
        assert(login_transition(ident, pwd, totp, self.lifetime, run[2].phase, run[2].answer, run[2].next, run[2].request));
        assert(login_linked(run, 3));
        assert(self.login_replied(run, 3));
        assert(self.session_repo.answers_find(u.id, run[3].answer->SessionFound_0));
        law_session_outcome(ident, pwd, totp, self.lifetime, run, r, 3);
    }

    /// When the stores answer only that `ident` is the user `u`, whose shadowed password is
    /// `pwd`'s, and that `u` has the TOTP secret lookup answer `s`, active, a login without a
    /// code ends with `Unauthorized`.
    pub proof fn law_login_requires_a_code(
        &self,
        ident: Seq<char>,
        pwd: Seq<char>,
        totp: Seq<char>,
        r: Result<SessionToken, AuthError>,
        u: User,
        s: Result<Secret, AuthError>,
    )
        requires
            self.login_outcome(ident, pwd, totp, r),
            forall|x: Result<User, AuthError>| #[trigger] self.user_lookup(ident, x) ==> x == Ok::<User, AuthError>(u),
            password_matches(u, pwd),
            forall|x: Result<Secret, AuthError>|
                #[trigger] self.secret_repo.answers_find_secret(u.id, TOTP_SECRET_NAME@, x) ==> x == s,
            totp_active(s),
            totp.len() == 0,
        ensures
            r == Err::<SessionToken, AuthError>(AuthError::Unauthorized),
    {
        let run = choose|run: Seq<LoginRound>|
            #[trigger] login_run(ident, pwd, totp, self.lifetime, run, r) && forall|i: int|
                0 < i < run.len() ==> #[trigger] self.login_replied(run, i);
        law_user_refusals(ident, pwd, totp, self.lifetime, run, r);
        law_lookup_follows_identity(ident, pwd, totp, self.lifetime, run);
        assert(self.login_replied(run, 1));
        assert(self.user_lookup(ident, run[1].answer->UserFound_0));
        lemma_round_facts(ident, pwd, totp, self.lifetime, run, 1);
        assert(login_transition(ident, pwd, totp, self.lifetime, run[1].phase, run[1].answer, run[1].next, run[1].request));
        assert(login_linked(run, 2));
        assert(self.login_replied(run, 2));
        assert(self.secret_repo.answers_find_secret(u.id, TOTP_SECRET_NAME@, run[2].answer->SecretFound_0));
        law_totp_refusals(ident, pwd, totp, self.lifetime, run, r);
    }

    /// When the stores answer only that `ident` is the user `u`, whose shadowed password is
    /// `pwd`'s, and that `u` has the TOTP secret lookup answer `s`, not active, the code is
    /// ignored: an outcome of a login with the code `totp1` is one with any other code `totp2`.
    pub proof fn law_login_ignores_code_when_inactive(
        &self,
        ident: Seq<char>,
        pwd: Seq<char>,
        totp1: Seq<char>,
        totp2: Seq<char>,
        r: Result<SessionToken, AuthError>,
        u: User,
        s: Result<Secret, AuthError>,
    )
        requires
            self.login_outcome(ident, pwd, totp1, r),
            forall|x: Result<User, AuthError>| #[trigger] self.user_lookup(ident, x) ==> x == Ok::<User, AuthError>(u),
            password_matches(u, pwd),
            forall|x: Result<Secret, AuthError>|
                #[trigger] self.secret_repo.answers_find_secret(u.id, TOTP_SECRET_NAME@, x) ==> x == s,
            !totp_active(s),
        ensures
            self.login_outcome(ident, pwd, totp2, r),
    {
        let run = choose|run: Seq<LoginRound>|
            #[trigger] login_run(ident, pwd, totp1, self.lifetime, run, r) && forall|i: int|
                0 < i < run.len() ==> #[trigger] self.login_replied(run, i);
        law_user_refusals(ident, pwd, totp1, self.lifetime, run, r);
        law_lookup_follows_identity(ident, pwd, totp1, self.lifetime, run);
        assert(self.login_replied(run, 1));
        assert(self.user_lookup(ident, run[1].answer->UserFound_0));
        lemma_round_facts(ident, pwd, totp1, self.lifetime, run, 1);
        assert(login_transition(ident, pwd, totp1, self.lifetime, run[1].phase, run[1].answer, run[1].next, run[1].request));
        if run.len() <= 2 {
            assert(run.last() == run[1]);
        }
        assert(login_linked(run, 2));
        assert(self.login_replied(run, 2));
        assert(self.secret_repo.answers_find_secret(u.id, TOTP_SECRET_NAME@, run[2].answer->SecretFound_0));
        law_totp_ignored_when_inactive(ident, pwd, totp1, totp2, self.lifetime, run, r);
        assert(login_run(ident, pwd, totp2, self.lifetime, run, r) && forall|i: int|
            0 < i < run.len() ==> #[trigger] self.login_replied(run, i));
    }

    /// Logs in the user named or emailed `ident`, making each request `login_step` asks for
    /// of the user, secret and session stores, the TOTP check and the clock, and handing back
    /// their answers (see `login_transition` and `login_outcome`).
    pub fn login(&self, ident: &str, pwd: &str, totp: &str) -> (r: Result<SessionToken, AuthError>)
        ensures
            self.login_outcome(ident@, pwd@, totp@, r),
    {
        let mut phase = LoginPhase::Start;
        let mut answer = LoginAnswer::Begin;
        let ghost mut run: Seq<LoginRound> = Seq::empty();
        loop
            invariant
                login_expects(phase, answer),
                run.len() == 0 ==> phase == LoginPhase::Start && answer == LoginAnswer::Begin,
                run.len() > 0 ==> login_prefix(ident@, pwd@, totp@, self.lifetime, run)
                    && run.last().next == phase && login_answers(run.last().request, answer)
                    && self.admits(run.last().request, answer),
                forall|i: int| 0 < i < run.len() ==> #[trigger] self.login_replied(run, i),
            decreases login_rank(phase),
        {
            let ghost g_phase = phase;
            let ghost g_answer = answer;
            let (next, request) = self.login_step(ident, pwd, totp, phase, answer);
            let ghost round = LoginRound { phase: g_phase, answer: g_answer, next, request };
            proof {
                let old_run = run;
                run = run.push(round);
                assert(run[run.len() - 1] == round);
                assert forall|i: int| 0 <= i < run.len() - 1 implies #[trigger] run[i] == old_run[i] by {}
                assert forall|i: int| 0 < i < run.len() implies #[trigger] self.login_replied(run, i) by {
                    assert(run[i - 1] == old_run[i - 1]);
                    if i < run.len() - 1 {
                        assert(run[i] == old_run[i]);
                        assert(self.login_replied(old_run, i));
                    }
                }
                assert forall|i: int| 0 < i < run.len() implies #[trigger] login_linked(run, i) by {
                    assert(run[i - 1] == old_run[i - 1]);
                    if i < run.len() - 1 {
                        assert(run[i] == old_run[i]);
                        assert(login_linked(old_run, i));
                    }
                }
                assert(login_prefix(ident@, pwd@, totp@, self.lifetime, run)) by {
                    assert forall|i: int| 0 <= i < run.len() implies login_transition(
                        ident@,
                        pwd@,
                        totp@,
                        self.lifetime,
                        (#[trigger] run[i]).phase,
                        run[i].answer,
                        run[i].next,
                        run[i].request,
                    ) by {
                        if i < run.len() - 1 {
                            assert(run[i] == old_run[i]);
                        }
                    }
                }
            }
            let ghost g_request = request;
            match request {
                LoginRequest::Finish(r) => {
                    assert(login_run(ident@, pwd@, totp@, self.lifetime, run, r));
                    return r;
                },
                LoginRequest::FindUserByEmail(i) => {
                    answer = LoginAnswer::UserFound(self.user_repo.find_by_email(i.as_str()));
                },
                LoginRequest::FindUserByName(i) => {
                    answer = LoginAnswer::UserFound(self.user_repo.find_by_name(i.as_str()));
                },
                LoginRequest::FindSecret(id, n) => {
                    answer = LoginAnswer::SecretFound(
                        self.secret_repo.find_by_user_and_name(id, n.as_str()),
                    );
                },
                LoginRequest::CheckCode(d, c) => {
                    answer = LoginAnswer::CodeChecked(verify_totp(d.as_slice(), c.as_str()));
                },
                LoginRequest::FindSession(id) => {
                    answer = LoginAnswer::SessionFound(self.session_repo.find(id));
                },
                LoginRequest::ReadClock => {
                    answer = LoginAnswer::ClockRead(unix_now());
                },
                LoginRequest::SaveSession(t) => {
                    answer = LoginAnswer::Saved(self.session_repo.save(&t));
                },
            }
            assert(self.admits(g_request, answer));
            phase = next;
        }
    }

    /// Logs out the user `user_id` by removing its session: the answer is the session store's.
    pub fn logout(&self, user_id: i32) -> (r: Result<(), AuthError>)
        ensures
            self.session_repo.answers_delete(user_id, r),
    {
        self.session_repo.delete(user_id)
    }
}

} // verus!
