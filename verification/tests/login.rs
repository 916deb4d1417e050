use std::cell::RefCell;
use std::sync::Arc;

use rauth::constants::{PWD_SUFIX, TOKEN_ISSUER};
use rauth::errors::AuthError;
use rauth::metadata::domain::Metadata;
use rauth::secret::application::SecretRepository;
use rauth::secret::domain::{Secret, SecretKind};
use rauth::security::shadow;
use rauth::session::application::{second_factor, LoginAnswer, LoginPhase, LoginRequest, SecondFactor, SessionApplication, SessionRepository};
use rauth::constants::TOTP_SECRET_NAME;
use rauth::session::domain::SessionToken;
use rauth::user::application::UserRepository;
use rauth::user::domain::User;

fn meta() -> Metadata {
    Metadata { id: 1, created_at: 10, updated_at: 10, deleted_at: None }
}

fn alice() -> User {
    User {
        id: 7,
        name: "alice".to_string(),
        email: "alice@example.com".to_string(),
        password: shadow("secret", PWD_SUFIX),
        secret: None,
        meta: meta(),
    }
}

struct Users {
    user: User,
    by_email: RefCell<u32>,
    by_name: RefCell<u32>,
}

impl UserRepository for Users {
    fn find_by_email(&self, email: &str) -> Result<User, AuthError> {
        *self.by_email.borrow_mut() += 1;
        if email == self.user.email { Ok(self.user.clone()) } else { Err(AuthError::NotFound) }
    }

    fn find_by_name(&self, name: &str) -> Result<User, AuthError> {
        *self.by_name.borrow_mut() += 1;
        if name == self.user.name { Ok(self.user.clone()) } else { Err(AuthError::NotFound) }
    }
}

struct Secrets {
    secret: Option<Secret>,
}

impl SecretRepository for Secrets {
    fn find_by_user_and_name(&self, _user_id: i32, _name: &str) -> Result<Secret, AuthError> {
        self.secret.clone().ok_or(AuthError::NotFound)
    }
}

struct Sessions {
    tokens: RefCell<Vec<SessionToken>>,
}

impl SessionRepository for Sessions {
    fn find(&self, user_id: i32) -> Result<SessionToken, AuthError> {
        self.tokens.borrow().iter().find(|t| t.sub == user_id).cloned().ok_or(AuthError::NotFound)
    }

    fn save(&self, token: &SessionToken) -> Result<(), AuthError> {
        self.tokens.borrow_mut().push(token.clone());
        Ok(())
    }

    fn delete(&self, user_id: i32) -> Result<(), AuthError> {
        let mut tokens = self.tokens.borrow_mut();
        let before = tokens.len();
        tokens.retain(|t| t.sub != user_id);
        if tokens.len() < before { Ok(()) } else { Err(AuthError::NotFound) }
    }
}

fn app(secret: Option<Secret>) -> SessionApplication<Sessions, Users, Secrets> {
    SessionApplication {
        session_repo: Arc::new(Sessions { tokens: RefCell::new(Vec::new()) }),
        user_repo: Arc::new(Users { user: alice(), by_email: RefCell::new(0), by_name: RefCell::new(0) }),
        secret_repo: Arc::new(Secrets { secret }),
        lifetime: 3600,
    }
}

fn totp_secret(deleted: bool) -> Secret {
    Secret {
        id: 3,
        owner: 7,
        kind: SecretKind::Otp,
        name: "totp".to_string(),
        data: b"12345678901234567890".to_vec(),
        meta: Metadata { id: 2, created_at: 1, updated_at: 1, deleted_at: if deleted { Some(5) } else { None } },
    }
}

#[test]
fn login_by_email_issues_a_new_session() {
    let app = app(None);
    let token = app.login("alice@example.com", "secret", "").unwrap();
    assert_eq!(token.sub, 7);
    assert_eq!(token.iss, TOKEN_ISSUER);
    assert_eq!(token.exp, token.iat + 3600);
    assert_eq!(*app.user_repo.by_email.borrow(), 1);
    assert_eq!(*app.user_repo.by_name.borrow(), 0);
    assert_eq!(app.session_repo.tokens.borrow().len(), 1);
}

#[test]
fn login_by_name_looks_the_user_up_by_name() {
    let app = app(None);
    let token = app.login("alice", "secret", "").unwrap();
    assert_eq!(token.sub, 7);
    assert_eq!(*app.user_repo.by_email.borrow(), 0);
    assert_eq!(*app.user_repo.by_name.borrow(), 1);
}

#[test]
fn login_returns_the_existing_session() {
    let app = app(None);
    let first = app.login("alice", "secret", "").unwrap();
    let second = app.login("alice@example.com", "secret", "whatever").unwrap();
    assert_eq!(first, second);
    assert_eq!(app.session_repo.tokens.borrow().len(), 1);
}

#[test]
fn login_with_a_wrong_password_is_not_found() {
    let app = app(None);
    assert_eq!(app.login("alice", "wrong", ""), Err(AuthError::NotFound));
    assert!(app.session_repo.tokens.borrow().is_empty());
}

#[test]
fn login_of_an_unknown_user_passes_the_lookup_error_on() {
    let app = app(None);
    assert_eq!(app.login("bob@example.com", "secret", ""), Err(AuthError::NotFound));
}

#[test]
fn login_requires_a_code_when_totp_is_active() {
    let app = app(Some(totp_secret(false)));
    assert_eq!(app.login("alice", "secret", ""), Err(AuthError::Unauthorized));
    assert_eq!(app.login("alice", "secret", "12"), Err(AuthError::Unauthorized));
    assert!(app.session_repo.tokens.borrow().is_empty());
}

#[test]
fn login_ignores_a_deleted_totp_secret() {
    let app = app(Some(totp_secret(true)));
    assert!(app.login("alice", "secret", "").is_ok());
}

#[test]
fn logout_removes_the_session() {
    let app = app(None);
    app.login("alice", "secret", "").unwrap();
    assert_eq!(app.logout(7), Ok(()));
    assert!(app.session_repo.tokens.borrow().is_empty());
    assert_eq!(app.logout(7), Err(AuthError::NotFound));
}

#[test]
fn second_factor_decisions() {
    assert_eq!(second_factor(&Err(AuthError::NotFound), ""), SecondFactor::Skip);
    assert_eq!(second_factor(&Ok(totp_secret(true)), "123456"), SecondFactor::Skip);
    assert_eq!(second_factor(&Ok(totp_secret(false)), ""), SecondFactor::Missing);
    assert_eq!(second_factor(&Ok(totp_secret(false)), "123456"), SecondFactor::Check);
}

#[test]
fn session_tokens_expire_after_their_timeout() {
    let t = SessionToken::new_at("issuer", 5, 100, 50);
    assert_eq!(t, SessionToken { exp: 150, iat: 100, iss: "issuer".to_string(), sub: 5 });
    let t = SessionToken::new_at("issuer", 5, u64::MAX - 1, 50);
    assert_eq!(t.exp, u64::MAX);
}

#[test]
fn login_step_looks_the_user_up_by_identity() {
    let app = app(None);
    assert_eq!(
        app.login_step("alice@example.com", "secret", "", LoginPhase::Start, LoginAnswer::Begin),
        (LoginPhase::UserAsked, LoginRequest::FindUserByEmail("alice@example.com".to_string()))
    );
    assert_eq!(
        app.login_step("alice", "secret", "", LoginPhase::Start, LoginAnswer::Begin),
        (LoginPhase::UserAsked, LoginRequest::FindUserByName("alice".to_string()))
    );
}

#[test]
fn login_step_checks_the_user_found() {
    let app = app(None);
    let failed = app.login_step("alice", "secret", "", LoginPhase::UserAsked, LoginAnswer::UserFound(Err(AuthError::Repository("down".to_string()))));
    assert_eq!(failed.1, LoginRequest::Finish(Err(AuthError::Repository("down".to_string()))));
    let wrong = app.login_step("alice", "wrong", "", LoginPhase::UserAsked, LoginAnswer::UserFound(Ok(alice())));
    assert_eq!(wrong.1, LoginRequest::Finish(Err(AuthError::NotFound)));
    let right = app.login_step("alice", "secret", "", LoginPhase::UserAsked, LoginAnswer::UserFound(Ok(alice())));
    assert_eq!(right, (LoginPhase::SecretAsked(alice()), LoginRequest::FindSecret(7, TOTP_SECRET_NAME.to_string())));
}

#[test]
fn login_step_asks_for_the_code_only_with_an_active_secret() {
    let app = app(None);
    let skip = app.login_step("alice", "secret", "", LoginPhase::SecretAsked(alice()), LoginAnswer::SecretFound(Ok(totp_secret(true))));
    assert_eq!(skip, (LoginPhase::SessionAsked(alice()), LoginRequest::FindSession(7)));
    let missing = app.login_step("alice", "secret", "", LoginPhase::SecretAsked(alice()), LoginAnswer::SecretFound(Ok(totp_secret(false))));
    assert_eq!(missing.1, LoginRequest::Finish(Err(AuthError::Unauthorized)));
    let check = app.login_step("alice", "secret", "123456", LoginPhase::SecretAsked(alice()), LoginAnswer::SecretFound(Ok(totp_secret(false))));
    assert_eq!(check, (LoginPhase::CodeAsked(alice()), LoginRequest::CheckCode(b"12345678901234567890".to_vec(), "123456".to_string())));
    let rejected = app.login_step("alice", "secret", "123456", LoginPhase::CodeAsked(alice()), LoginAnswer::CodeChecked(Ok(false)));
    assert_eq!(rejected.1, LoginRequest::Finish(Err(AuthError::Unauthorized)));
    let accepted = app.login_step("alice", "secret", "123456", LoginPhase::CodeAsked(alice()), LoginAnswer::CodeChecked(Ok(true)));
    assert_eq!(accepted, (LoginPhase::SessionAsked(alice()), LoginRequest::FindSession(7)));
}

#[test]
fn login_step_reuses_or_issues_the_session() {
    let app = app(None);
    let existing = SessionToken::new_at(TOKEN_ISSUER, 7, 5, 10);
    let reused = app.login_step("alice", "secret", "", LoginPhase::SessionAsked(alice()), LoginAnswer::SessionFound(Ok(existing.clone())));
    assert_eq!(reused.1, LoginRequest::Finish(Ok(existing)));
    let clock = app.login_step("alice", "secret", "", LoginPhase::SessionAsked(alice()), LoginAnswer::SessionFound(Err(AuthError::NotFound)));
    assert_eq!(clock, (LoginPhase::ClockAsked(alice()), LoginRequest::ReadClock));
    let fresh = SessionToken::new_at(TOKEN_ISSUER, 7, 1000, 3600);
    let save = app.login_step("alice", "secret", "", LoginPhase::ClockAsked(alice()), LoginAnswer::ClockRead(1000));
    assert_eq!(save, (LoginPhase::SaveAsked(alice(), fresh.clone()), LoginRequest::SaveSession(fresh.clone())));
    let saved = app.login_step("alice", "secret", "", LoginPhase::SaveAsked(alice(), fresh.clone()), LoginAnswer::Saved(Ok(())));
    assert_eq!(saved.1, LoginRequest::Finish(Ok(fresh.clone())));
    let refused = app.login_step("alice", "secret", "", LoginPhase::SaveAsked(alice(), fresh), LoginAnswer::Saved(Err(AuthError::Repository("full".to_string()))));
    assert_eq!(refused.1, LoginRequest::Finish(Err(AuthError::Repository("full".to_string()))));
}

#[test]
fn login_reuses_a_stored_session_without_saving() {
    let app = app(None);
    let stored = SessionToken::new_at(TOKEN_ISSUER, 7, 1, 10);
    app.session_repo.tokens.borrow_mut().push(stored.clone());
    assert_eq!(app.login("alice@example.com", "secret", ""), Ok(stored));
    assert_eq!(app.session_repo.tokens.borrow().len(), 1);
}
