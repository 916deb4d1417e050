use std::cell::RefCell;
use std::sync::Arc;

use rauth::constants::{ERR_DECRYPT_TOKEN, ERR_NOT_FOUND, ERR_PARSE_HEADER, ERR_SEND_EMAIL, ERR_TOKEN_REQUIRED, ERR_UNVERIFIED, PWD_SUFIX};
use rauth::errors::AuthError;
use rauth::grpc::{Code, Status};
use rauth::metadata::domain::Metadata;
use rauth::mfa::domain::Otp;
use rauth::mfa::error::MfaError;
use rauth::mfa::strategy::tp_app::{DisableStep, EnableAction, EnableEvent, EnableStep, SecretAction, SecretEvent, TpAppMethod, VerifyStep};
use rauth::secret::application::SecretRepository;
use rauth::secret::domain::{Secret, SecretKind};
use rauth::security::shadow;
use rauth::session::application::{SessionApplication, SessionRepository};
use rauth::session::domain::SessionToken;
use rauth::session::grpc::SessionServiceImplementation;
use rauth::user::application::UserRepository;
use rauth::user::domain::User;
use rauth::user::grpc::{SignupAction, SignupEvent, SignupStep, UserImplementation};

fn user(id: i32) -> User {
    User {
        id,
        name: "erin".to_string(),
        email: "erin@example.com".to_string(),
        password: shadow("pw", PWD_SUFIX),
        secret: None,
        meta: Metadata { id: 0, created_at: 0, updated_at: 0, deleted_at: None },
    }
}

fn method() -> TpAppMethod<(), (), ()> {
    TpAppMethod { otp_timeout: 300, totp_secret_len: 16, secret_repo: Arc::new(()), mail_srv: Arc::new(()), cache: Arc::new(()) }
}

#[test]
fn enabling_starts_by_reading_the_cache() {
    let (step, action) = method().enable_step(&user(3), None, EnableStep::Start, EnableEvent::Begin);
    assert_eq!(step, EnableStep::CacheAsked);
    assert_eq!(action, EnableAction::ReadCache("3::totp".to_string()));
}

#[test]
fn enabling_without_a_cached_secret_issues_one_to_confirm() {
    let m = method();
    let (step, action) = m.enable_step(&user(3), None, EnableStep::CacheAsked, EnableEvent::CacheRead(Err(AuthError::NotFound)));
    let otp = match action {
        EnableAction::WriteCache(key, otp, timeout) => {
            assert_eq!(key, "3::totp");
            assert_eq!(timeout, 300);
            assert_eq!(otp.value.len(), 16);
            otp
        }
        other => panic!("unexpected {:?}", other),
    };
    assert_eq!(step, EnableStep::NewSecretCached(otp.clone()));
    let (_, action) = m.enable_step(&user(3), None, step, EnableEvent::CacheWritten(Ok(())));
    assert_eq!(action, EnableAction::Finish(Err(MfaError::Ack(otp.value.clone()))));
    let (_, action) = m.enable_step(&user(3), None, EnableStep::NewSecretCached(otp), EnableEvent::CacheWritten(Err(AuthError::Totp)));
    assert_eq!(action, EnableAction::Finish(Err(MfaError::Repository(AuthError::Totp))));
}

#[test]
fn enabling_with_a_cached_secret_needs_a_valid_code() {
    let m = method();
    let cached = Otp { value: "ABCDEFGHIJKLMNOP".to_string() };
    let (_, action) = m.enable_step(&user(3), None, EnableStep::CacheAsked, EnableEvent::CacheRead(Ok(cached.clone())));
    assert_eq!(action, EnableAction::Finish(Err(MfaError::Required)));
    let code = Otp { value: "12".to_string() };
    let (step, action) = m.enable_step(&user(3), Some(&code), EnableStep::CacheAsked, EnableEvent::CacheRead(Ok(cached)));
    assert_eq!(step, EnableStep::CodeAsked);
    assert_eq!(action, EnableAction::CheckCode(b"ABCDEFGHIJKLMNOP".to_vec(), "12".to_string()));
    let (_, action) = m.enable_step(&user(3), Some(&code), EnableStep::CodeAsked, EnableEvent::CodeChecked(Ok(false)));
    assert_eq!(action, EnableAction::Finish(Err(MfaError::Invalid)));
    let (_, action) = m.enable_step(&user(3), Some(&code), EnableStep::CodeAsked, EnableEvent::CodeChecked(Err(AuthError::Totp)));
    assert_eq!(action, EnableAction::Finish(Err(MfaError::Repository(AuthError::Totp))));
    let (step, action) = m.enable_step(&user(3), Some(&code), EnableStep::CodeAsked, EnableEvent::CodeChecked(Ok(true)));
    assert_eq!(step, EnableStep::SecretStored);
    match action {
        EnableAction::StoreSecret(sec) => {
            assert_eq!((sec.owner, sec.kind, sec.name.as_str(), sec.data.as_slice()), (3, SecretKind::Otp, "totp", &b"12"[..]));
        },
        other => panic!("unexpected {:?}", other),
    }
}

#[test]
fn enabling_fails_with_the_cache() {
    let (_, action) = method().enable_step(&user(3), None, EnableStep::CacheAsked, EnableEvent::CacheRead(Err(AuthError::Repository("down".to_string()))));
    assert_eq!(action, EnableAction::Finish(Err(MfaError::Repository(AuthError::Repository("down".to_string())))));
}

#[test]
fn enabling_ends_with_the_store() {
    let (_, action) = method().enable_step(&user(3), None, EnableStep::SecretStored, EnableEvent::SecretStoredAnswer(Ok(())));
    assert_eq!(action, EnableAction::Finish(Ok(())));
    let (_, action) = method().enable_step(&user(3), None, EnableStep::SecretStored, EnableEvent::SecretStoredAnswer(Err(AuthError::NotFound)));
    assert_eq!(action, EnableAction::Finish(Err(MfaError::Repository(AuthError::NotFound))));
}

fn service(allow_unverified: bool) -> UserImplementation<()> {
    UserImplementation { user_app: (), rsa_secret: b"", rsa_public: b"", jwt_secret: b"", jwt_public: b"", jwt_header: "token", allow_unverified }
}

fn begin(header: Option<Result<String, String>>) -> SignupEvent {
    SignupEvent::Begin(header, "f@example.com".to_string(), "pw".to_string())
}

#[test]
fn unverified_signups_send_a_verification_email() {
    let s = service(false);
    let (step, action) = s.signup_step(SignupStep::Start, begin(None));
    assert_eq!(step, SignupStep::VerifyAsked);
    assert_eq!(action, SignupAction::VerifyUser("f@example.com".to_string(), shadow("pw", PWD_SUFIX)));
    let (_, action) = s.signup_step(step, SignupEvent::Verified(Ok(())));
    assert_eq!(action, SignupAction::Finish(Err(Status { code: Code::FailedPrecondition, message: ERR_UNVERIFIED.to_string() })));
    let (_, action) = s.signup_step(step, SignupEvent::Verified(Err(AuthError::NotFound)));
    assert_eq!(action, SignupAction::Finish(Err(Status { code: Code::Aborted, message: ERR_SEND_EMAIL.to_string() })));
}

#[test]
fn allowed_unverified_signups_sign_up_at_once() {
    let s = service(true);
    let (step, action) = s.signup_step(SignupStep::Start, begin(None));
    assert_eq!(step, SignupStep::SignupAsked);
    assert_eq!(action, SignupAction::Signup("f@example.com".to_string(), shadow("pw", PWD_SUFIX)));
    assert_eq!(s.signup_step(step, SignupEvent::SignedUp(Ok(()))).1, SignupAction::Finish(Ok(())));
    assert_eq!(
        s.signup_step(step, SignupEvent::SignedUp(Err(AuthError::NotFound))).1,
        SignupAction::Finish(Err(Status { code: Code::Aborted, message: ERR_NOT_FOUND.to_string() }))
    );
}

#[test]
fn signups_with_a_token_decrypt_it_and_sign_up_with_it() {
    let s = service(false);
    let (step, action) = s.signup_step(SignupStep::Start, begin(Some(Ok("aGVsbG8=".to_string()))));
    assert_eq!(step, SignupStep::DecryptAsked);
    assert_eq!(action, SignupAction::Decrypt(b"hello".to_vec()));
    let (step, action) = s.signup_step(step, SignupEvent::Decrypted(Ok(b"world".to_vec())));
    assert_eq!(step, SignupStep::SecureSignupAsked);
    assert_eq!(action, SignupAction::SecureSignup("d29ybGQ=".to_string()));
    assert_eq!(s.signup_step(step, SignupEvent::SecurelySignedUp(Ok(()))).1, SignupAction::Finish(Ok(())));
}

#[test]
fn signups_with_a_bad_token_are_aborted() {
    let s = service(true);
    assert_eq!(
        s.signup_step(SignupStep::Start, begin(Some(Ok("***".to_string())))).1,
        SignupAction::Finish(Err(Status { code: Code::Aborted, message: ERR_PARSE_HEADER.to_string() }))
    );
    assert_eq!(
        s.signup_step(SignupStep::Start, begin(Some(Err("not ascii".to_string())))).1,
        SignupAction::Finish(Err(Status { code: Code::Aborted, message: "not ascii".to_string() }))
    );
    assert_eq!(
        s.signup_step(SignupStep::DecryptAsked, SignupEvent::Decrypted(Err("bad key".to_string()))).1,
        SignupAction::Finish(Err(Status { code: Code::Aborted, message: ERR_DECRYPT_TOKEN.to_string() }))
    );
    let _ = ERR_TOKEN_REQUIRED;
}

struct OneUser;

impl UserRepository for OneUser {
    fn find_by_email(&self, _email: &str) -> Result<User, AuthError> {
        Ok(user(9))
    }

    fn find_by_name(&self, _name: &str) -> Result<User, AuthError> {
        Ok(user(9))
    }
}

struct NoSecrets;

impl SecretRepository for NoSecrets {
    fn find_by_user_and_name(&self, _user_id: i32, _name: &str) -> Result<Secret, AuthError> {
        Err(AuthError::NotFound)
    }
}

struct Tokens(RefCell<Vec<SessionToken>>);

impl SessionRepository for Tokens {
    fn find(&self, user_id: i32) -> Result<SessionToken, AuthError> {
        self.0.borrow().iter().find(|t| t.sub == user_id).cloned().ok_or(AuthError::NotFound)
    }

    fn save(&self, token: &SessionToken) -> Result<(), AuthError> {
        self.0.borrow_mut().push(token.clone());
        Ok(())
    }

    fn delete(&self, user_id: i32) -> Result<(), AuthError> {
        let before = self.0.borrow().len();
        self.0.borrow_mut().retain(|t| t.sub != user_id);
        if self.0.borrow().len() < before { Ok(()) } else { Err(AuthError::NotFound) }
    }
}

#[test]
fn the_session_service_answers_logins_and_logouts() {
    let srv = SessionServiceImplementation {
        sess_app: SessionApplication {
            session_repo: Arc::new(Tokens(RefCell::new(Vec::new()))),
            user_repo: Arc::new(OneUser),
            secret_repo: Arc::new(NoSecrets),
            lifetime: 60,
        },
        jwt_secret: b"",
        jwt_public: b"",
        jwt_header: "token",
    };
    assert_eq!(srv.login("erin", "nope", "").err(), Some(Status { code: Code::Aborted, message: ERR_NOT_FOUND.to_string() }));
    let token = srv.login("erin", "pw", "").unwrap();
    assert_eq!(token.sub, 9);
    assert_eq!(srv.logout(Err("bad signature".to_string())), Err(Status { code: Code::Unknown, message: "bad signature".to_string() }));
    assert_eq!(srv.logout(Ok(token.clone())), Ok(()));
    assert_eq!(srv.logout(Ok(token)), Err(Status { code: Code::Aborted, message: ERR_NOT_FOUND.to_string() }));
    let _ = SecretKind::Otp;
}

type Method = TpAppMethod<(), (), ()>;

fn otp_secret(owner: i32) -> Secret {
    Secret { id: 8, owner, kind: SecretKind::Otp, name: "totp".to_string(), data: b"12345678901234567890".to_vec(), meta: Metadata { id: 0, created_at: 0, updated_at: 0, deleted_at: None } }
}

#[test]
fn checking_a_code_needs_one_and_the_users_secret() {
    let u = user(4);
    assert_eq!(Method::verify_step(&u, None, VerifyStep::Start, SecretEvent::Begin).1, SecretAction::Finish(Err(MfaError::Required)));
    let code = Otp { value: "1".to_string() };
    assert_eq!(
        Method::verify_step(&u, Some(&code), VerifyStep::Start, SecretEvent::Begin),
        (VerifyStep::SecretAsked, SecretAction::FindSecret(4, SecretKind::Otp))
    );
    assert_eq!(
        Method::verify_step(&u, Some(&code), VerifyStep::SecretAsked, SecretEvent::SecretFound(Err(AuthError::NotFound))).1,
        SecretAction::Finish(Err(MfaError::Repository(AuthError::NotFound)))
    );
    assert_eq!(
        Method::verify_step(&u, Some(&code), VerifyStep::SecretAsked, SecretEvent::SecretFound(Ok(otp_secret(4)))),
        (VerifyStep::CodeAsked, SecretAction::CheckCode(b"12345678901234567890".to_vec(), "1".to_string()))
    );
    assert_eq!(Method::verify_step(&u, Some(&code), VerifyStep::CodeAsked, SecretEvent::CodeChecked(Ok(true))).1, SecretAction::Finish(Ok(())));
    assert_eq!(
        Method::verify_step(&u, Some(&code), VerifyStep::CodeAsked, SecretEvent::CodeChecked(Ok(false))).1,
        SecretAction::Finish(Err(MfaError::Invalid))
    );
}

#[test]
fn disabling_checks_the_code_then_deletes_the_secret() {
    let u = user(4);
    let code = Otp { value: "1".to_string() };
    assert_eq!(Method::disable_step(&u, None, DisableStep::Start, SecretEvent::Begin).1, SecretAction::Finish(Err(MfaError::Required)));
    assert_eq!(
        Method::disable_step(&u, Some(&code), DisableStep::Start, SecretEvent::Begin),
        (DisableStep::SecretAsked, SecretAction::FindSecret(4, SecretKind::Otp))
    );
    assert_eq!(
        Method::disable_step(&u, Some(&code), DisableStep::SecretAsked, SecretEvent::SecretFound(Ok(otp_secret(4)))),
        (DisableStep::CodeAsked, SecretAction::CheckCode(b"12345678901234567890".to_vec(), "1".to_string()))
    );
    assert_eq!(
        Method::disable_step(&u, Some(&code), DisableStep::CodeAsked, SecretEvent::CodeChecked(Ok(false))).1,
        SecretAction::Finish(Err(MfaError::Invalid))
    );
    assert_eq!(
        Method::disable_step(&u, Some(&code), DisableStep::CodeAsked, SecretEvent::CodeChecked(Ok(true))),
        (DisableStep::SecretAskedAgain, SecretAction::FindSecret(4, SecretKind::Otp))
    );
    assert_eq!(
        Method::disable_step(&u, Some(&code), DisableStep::SecretAskedAgain, SecretEvent::SecretFound(Ok(otp_secret(4)))),
        (DisableStep::DeleteAsked, SecretAction::DeleteSecret(otp_secret(4)))
    );
    assert_eq!(
        Method::disable_step(&u, Some(&code), DisableStep::SecretAskedAgain, SecretEvent::SecretFound(Err(AuthError::NotFound))).1,
        SecretAction::Finish(Err(MfaError::Repository(AuthError::NotFound)))
    );
    assert_eq!(
        Method::disable_step(&u, Some(&code), DisableStep::DeleteAsked, SecretEvent::SecretDeleted(Ok(()))).1,
        SecretAction::Finish(Ok(()))
    );
}
