//! The session service: login and logout handlers over the session use cases.
use vstd::prelude::*;
use crate::errors::{error_message, AuthError};
use crate::grpc::{Code, Status};
use crate::secret::application::SecretRepository;
use crate::session::application::{SessionApplication, SessionRepository};
use crate::grpc::{get_header, HeaderLookup};
use crate::constants::ERR_TOKEN_REQUIRED;
use crate::session::domain::SessionToken;
use crate::user::application::UserRepository;

verus! {

/// The session service and the keys and header name it signs and reads tokens with.
pub struct SessionServiceImplementation<
    S: SessionRepository,
    U: UserRepository,
    E: SecretRepository,
> {
    pub sess_app: SessionApplication<S, U, E>,
    pub jwt_secret: &'static [u8],
    pub jwt_public: &'static [u8],
    pub jwt_header: &'static str,
}

/// `r` answers a use case that returned `inner`: the same value, or `code` with the error's text.
pub open spec fn answered<T>(inner: Result<T, AuthError>, r: Result<T, Status>, code: Code) -> bool {
    match inner {
        Ok(v) => r == Ok::<T, Status>(v),
        Err(e) => r matches Err(s) && s.code == code && s.message@ == error_message(e),
    }
}

/// Maps a failure of a use case to a status of kind `code` carrying the error's text.
pub fn answer<T>(inner: Result<T, AuthError>, code: Code) -> (r: Result<T, Status>)
    ensures
        answered(inner, r, code),
{
    match inner {
        Ok(v) => Ok(v),
        Err(e) => Err(Status::with_message(code, e.message())),
    }
}

/// The value of the token header: the signed token, or `Unknown` with the reason signing failed.
pub fn signed_token(signed: Result<String, String>) -> (r: Result<String, Status>)
    ensures
        match signed {
            Ok(t) => r == Ok::<String, Status>(t),
            Err(m) => r matches Err(s) && s.code == Code::Unknown && s.message == m,
        },
{
    match signed {
        Ok(t) => Ok(t),
        Err(m) => Err(Status::with_message(Code::Unknown, m)),
    }
}

/// Where a login request to the service stands.
#[derive(Debug, PartialEq, Eq, Structural, Clone, Copy)]
pub enum ServiceLoginPhase {
    Start,
    /// The login use case was run.
    LoginAsked,
    /// The session token was handed over to be signed.
    SignAsked,
}

/// What a login request asks next, or how it ends.
#[derive(Debug, PartialEq, Eq)]
pub enum ServiceLoginRequest {
    /// Run the login use case with this identity, password and TOTP code.
    LogIn(String, String, String),
    /// Sign this session token with the service's secret key.
    Sign(SessionToken),
    /// Over: the signed token to send in the `jwt_header` header, or the answer.
    Finish(Result<String, Status>),
}

/// What the request held or a collaborator answered.
#[derive(Debug, PartialEq, Eq)]
pub enum ServiceLoginAnswer {
    /// The request: identity, password and TOTP code.
    Begin(String, String, String),
    LoggedIn(Result<SessionToken, AuthError>),
    Signed(Result<String, String>),
}

pub open spec fn service_login_expects(phase: ServiceLoginPhase, answer: ServiceLoginAnswer) -> bool {
    match phase {
        ServiceLoginPhase::Start => answer is Begin,
        ServiceLoginPhase::LoginAsked => answer is LoggedIn,
        ServiceLoginPhase::SignAsked => answer is Signed,
    }
}

/// Where a logout request to the service stands.
#[derive(Debug, PartialEq, Eq, Structural, Clone, Copy)]
pub enum ServiceLogoutPhase {
    Start,
    /// The token of the header was handed over to be verified and decoded.
    DecodeAsked,
    /// The logout use case was run.
    LogoutAsked,
}

/// What a logout request asks next, or how it ends.
#[derive(Debug, PartialEq, Eq)]
pub enum ServiceLogoutRequest {
    /// Verify and decode this signed token with the service's public key.
    Decode(String),
    /// Run the logout use case for this user.
    LogOut(i32),
    Finish(Result<(), Status>),
}

/// What the request held or a collaborator answered.
#[derive(Debug, PartialEq, Eq)]
pub enum ServiceLogoutAnswer {
    /// The request's token header.
    Begin(HeaderLookup),
    Decoded(Result<SessionToken, String>),
    LoggedOut(Result<(), AuthError>),
}

pub open spec fn service_logout_expects(phase: ServiceLogoutPhase, answer: ServiceLogoutAnswer) -> bool {
    match phase {
        ServiceLogoutPhase::Start => answer is Begin,
        ServiceLogoutPhase::DecodeAsked => answer is Decoded,
        ServiceLogoutPhase::LogoutAsked => answer is LoggedOut,
    }
}

/// One step of a login request: the login use case is run with the request's identity,
/// password and code; its failure is answered `Aborted` with the error's text; its token is
/// signed, a signing failure answered `Unknown` with the reason, and the signed token is what
/// goes into the `jwt_header` header.
pub fn service_login_step(phase: ServiceLoginPhase, got: ServiceLoginAnswer) -> (r: (
    ServiceLoginPhase,
    ServiceLoginRequest,
))
    requires
        service_login_expects(phase, got),
    ensures
        got matches ServiceLoginAnswer::Begin(i, p, t) ==> r == (
            ServiceLoginPhase::LoginAsked,
            ServiceLoginRequest::LogIn(i, p, t),
        ),
        got matches ServiceLoginAnswer::LoggedIn(l) ==> match l {
            Ok(t) => r == (ServiceLoginPhase::SignAsked, ServiceLoginRequest::Sign(t)),
            Err(e) => r.1 matches ServiceLoginRequest::Finish(Err(s)) && s.code == Code::Aborted
                && s.message@ == error_message(e),
        },
        got matches ServiceLoginAnswer::Signed(g) ==> (r.1 matches ServiceLoginRequest::Finish(
            f,
        ) && match g {
            Ok(t) => f == Ok::<String, Status>(t),
            Err(m) => f matches Err(s) && s.code == Code::Unknown && s.message == m,
        }),
{
    match got {
        ServiceLoginAnswer::Begin(i, p, t) => (
            ServiceLoginPhase::LoginAsked,
            ServiceLoginRequest::LogIn(i, p, t),
        ),
        ServiceLoginAnswer::LoggedIn(l) => match l {
            Ok(t) => (ServiceLoginPhase::SignAsked, ServiceLoginRequest::Sign(t)),
            Err(e) => (phase, ServiceLoginRequest::Finish(Err(Status::with_message(Code::Aborted, e.message())))),
        },
        ServiceLoginAnswer::Signed(g) => (phase, ServiceLoginRequest::Finish(signed_token(g))),
    }
}

/// One step of a logout request: the token header must be present (`FailedPrecondition`,
/// "token required") and readable (`Aborted` with the reason); the token is verified and
/// decoded (`Unknown` with the reason if that fails); then the logout use case is run for the
/// token's subject and its failure answered `Aborted` with the error's text.
pub fn service_logout_step(phase: ServiceLogoutPhase, got: ServiceLogoutAnswer) -> (r: (
    ServiceLogoutPhase,
    ServiceLogoutRequest,
))
    requires
        service_logout_expects(phase, got),
    ensures
        got matches ServiceLogoutAnswer::Begin(lookup) ==> match lookup {
            None => r.1 matches ServiceLogoutRequest::Finish(Err(s)) && s.code
                == Code::FailedPrecondition && s.message@ == ERR_TOKEN_REQUIRED@,
            Some(Err(m)) => r.1 matches ServiceLogoutRequest::Finish(Err(s)) && s.code
                == Code::Aborted && s.message == m,
            Some(Ok(h)) => r == (ServiceLogoutPhase::DecodeAsked, ServiceLogoutRequest::Decode(h)),
        },
        got matches ServiceLogoutAnswer::Decoded(d) ==> match d {
            Err(m) => r.1 matches ServiceLogoutRequest::Finish(Err(s)) && s.code == Code::Unknown
                && s.message == m,
            Ok(t) => r == (ServiceLogoutPhase::LogoutAsked, ServiceLogoutRequest::LogOut(t.sub)),
        },
        got matches ServiceLogoutAnswer::LoggedOut(w) ==> (r.1 matches ServiceLogoutRequest::Finish(
            f,
        ) && answered(w, f, Code::Aborted)),
{
    match got {
        ServiceLogoutAnswer::Begin(lookup) => match get_header(lookup) {
            Err(s) => (phase, ServiceLogoutRequest::Finish(Err(s))),
            Ok(h) => (ServiceLogoutPhase::DecodeAsked, ServiceLogoutRequest::Decode(h)),
        },
        ServiceLogoutAnswer::Decoded(d) => match d {
            Err(m) => (phase, ServiceLogoutRequest::Finish(Err(Status::with_message(Code::Unknown, m)))),
            Ok(t) => (ServiceLogoutPhase::LogoutAsked, ServiceLogoutRequest::LogOut(t.sub)),
        },
        ServiceLogoutAnswer::LoggedOut(w) => (phase, ServiceLogoutRequest::Finish(answer(w, Code::Aborted))),
    }
}

impl<S: SessionRepository, U: UserRepository, E: SecretRepository> SessionServiceImplementation<
    S,
    U,
    E,
> {
    /// Runs the login use case for a login request and answers it (see `service_login_step`):
    /// `r` answers, with `Aborted` for a failure, what the use case returned; the token returned
    /// is then signed and sent in the `jwt_header` header.
    pub fn login(&self, ident: &str, pwd: &str, totp: &str) -> (r: Result<SessionToken, Status>)
        ensures
            exists|inner: Result<SessionToken, AuthError>|
                #[trigger] self.sess_app.login_outcome(ident@, pwd@, totp@, inner) && answered(
                    inner,
                    r,
                    Code::Aborted,
                ),
    {
        let inner = self.sess_app.login(ident, pwd, totp);
        let ghost g = inner;
        let r = answer(inner, Code::Aborted);
        assert(self.sess_app.login_outcome(ident@, pwd@, totp@, g) && answered(g, r, Code::Aborted));
        r
    }

    /// Logs out the subject of the decoded token of a logout request and answers it (see
    /// `service_logout_step`): a token that could not be decoded is answered `Unknown` with
    /// the reason; otherwise the use case logs out the token's subject and `r` answers, with
    /// `Aborted` for a failure, what the session store answered.
    pub fn logout(&self, decoded: Result<SessionToken, String>) -> (r: Result<(), Status>)
        ensures
            decoded matches Err(m) ==> r matches Err(s) && s.code == Code::Unknown && s.message
                == m,
            decoded matches Ok(t) ==> exists|w: Result<(), AuthError>|
                #[trigger] self.sess_app.session_repo.answers_delete(t.sub, w) && answered(
                    w,
                    r,
                    Code::Aborted,
                ),
    {
        let (phase, request) = service_logout_step(
            ServiceLogoutPhase::DecodeAsked,
            ServiceLogoutAnswer::Decoded(decoded),
        );
        match request {
            ServiceLogoutRequest::LogOut(sub) => {
                let w = self.sess_app.logout(sub);
                let (_, last) = service_logout_step(phase, ServiceLogoutAnswer::LoggedOut(w));
                match last {
                    ServiceLogoutRequest::Finish(f) => {
                        assert(self.sess_app.session_repo.answers_delete(sub, w) && answered(w, f, Code::Aborted));
                        f
                    },
                    _ => Err(Status::new(Code::Unknown, ERR_TOKEN_REQUIRED)),
                }
            },
            ServiceLogoutRequest::Finish(f) => f,
            ServiceLogoutRequest::Decode(_) => Err(Status::new(Code::Unknown, ERR_TOKEN_REQUIRED)),
        }
    }
}

} // verus!
