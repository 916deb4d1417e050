use std::sync::Arc;

use rauth::app::domain::App;
use rauth::constants::{ERR_DECRYPT_TOKEN, ERR_INVALID_OPTION, ERR_NOT_FOUND, ERR_PARSE_HEADER, ERR_SEND_EMAIL, ERR_TOKEN_REQUIRED, ERR_UNAUTHORIZED, ERR_UNVERIFIED, ERR_USER_NOT_VERIFIED};
use rauth::errors::AuthError;
use rauth::grpc::{get_header, Code, Status};
use rauth::metadata::domain::Metadata;
use rauth::mfa::domain::Otp;
use rauth::mfa::error::MfaError;
use rauth::mfa::strategy::tp_app::{decimal_text, EnableAction, TpAppMethod};
use rauth::models::client::Client;
use rauth::models::enums::Kind;
use rauth::models::user::{check_user_kind, first_row, Ctrl, User as Row};
use rauth::secret::domain::{Secret, SecretKind};
use rauth::service::session::transactions::login::TxLogin;
use rauth::session::framework::{LoginAction, LoginEvent, LoginStep, SessionServiceImplementation as FrameworkService};
use rauth::session::grpc::{answer, signed_token};
use rauth::transaction::traits::Body;
use rauth::user::domain::User;
use rauth::user::framework::{EmailSenderImplementation, PostgresUserRepository, SaveUserAction, SaveUserEvent, SaveUserStep, UserServiceImplementation};
use rauth::user::grpc::{decode_token, decrypted_token, encode_token, reset_password_answer, totp_action, unverified_answer, SignupPlan, TotpAction, UserImplementation};

fn meta() -> Metadata {
    Metadata { id: 0, created_at: 0, updated_at: 0, deleted_at: None }
}

fn secret() -> Secret {
    Secret { id: 1, owner: 2, kind: SecretKind::Salt, name: "salt".to_string(), data: vec![1, 2], meta: meta() }
}

fn user(id: i32, with_secret: bool) -> User {
    User {
        id,
        name: "carol".to_string(),
        email: "carol@example.com".to_string(),
        password: String::new(),
        secret: if with_secret { Some(secret()) } else { None },
        meta: meta(),
    }
}

#[test]
fn apps_need_a_url() {
    let app = App::new("https://app.example.com", secret(), meta()).unwrap();
    assert_eq!(app.id, 0);
    assert_eq!(app.url, "https://app.example.com");
    assert_eq!(app.secret, secret());
    assert_eq!(App::new("not a url", secret(), meta()).err(), Some(AuthError::InvalidFormat));
}

#[test]
fn a_user_row_is_bound_to_its_client() {
    let row = Row { id: 4, client_id: 9, email: "d@example.com".to_string() };
    let w = row.build(Client { id: 9, name: "dave".to_string(), kind: Kind::USER }).unwrap();
    assert_eq!(w.get_id(), 4);
    assert_eq!(w.get_client_id(), 9);
    assert_eq!(w.get_email(), "d@example.com");
    assert_eq!(w.get_name(), "dave");
}

#[test]
fn lookups_take_the_first_row() {
    assert_eq!(first_row(vec![3, 4, 5]), Ok(3));
    assert_eq!(first_row(Vec::<i32>::new()), Err(AuthError::NotFound));
}

#[test]
fn clients_looked_up_by_name_must_be_users() {
    assert_eq!(check_user_kind(&Client { id: 1, name: "u".to_string(), kind: Kind::USER }), Ok(()));
    assert_eq!(
        check_user_kind(&Client { id: 1, name: "my \"app\"".to_string(), kind: Kind::APP }),
        Err(AuthError::Repository("Client \"my \\\"app\\\"\" is not of the type \"USER\"".to_string()))
    );
}

#[test]
fn kinds_have_names_and_numbers() {
    assert_eq!(Kind::USER.to_string(), "USER");
    assert_eq!(Kind::APP.to_string(), "APP");
    assert_eq!(Kind::USER.to_int32(), 0);
    assert_eq!(Kind::APP.to_int32(), 1);
}

#[test]
fn the_login_transaction_always_goes_through() {
    let tx = TxLogin::new("c".to_string(), "n".to_string(), "a".to_string(), "p".to_string());
    assert_eq!(tx.precondition(), Ok(()));
    assert_eq!(tx.postcondition(), Ok(String::new()));
    assert_eq!(tx.commit(), Ok(()));
    tx.rollback();
}

#[test]
fn headers_are_read_or_refused() {
    assert_eq!(get_header(Some(Ok("abc".to_string()))), Ok("abc".to_string()));
    assert_eq!(get_header(None), Err(Status { code: Code::FailedPrecondition, message: ERR_TOKEN_REQUIRED.to_string() }));
    assert_eq!(get_header(Some(Err("bad".to_string()))), Err(Status { code: Code::Aborted, message: "bad".to_string() }));
}

#[test]
fn errors_are_answered_with_their_text() {
    assert_eq!(answer(Ok::<i32, AuthError>(1), Code::Aborted), Ok(1));
    assert_eq!(answer::<i32>(Err(AuthError::NotFound), Code::Aborted), Err(Status { code: Code::Aborted, message: ERR_NOT_FOUND.to_string() }));
    assert_eq!(answer::<i32>(Err(AuthError::Repository("db down".to_string())), Code::Unknown), Err(Status { code: Code::Unknown, message: "db down".to_string() }));
    assert_eq!(AuthError::Unauthorized.message(), ERR_UNAUTHORIZED);
    assert_eq!(signed_token(Ok("jwt".to_string())), Ok("jwt".to_string()));
    assert_eq!(signed_token(Err("no key".to_string())), Err(Status { code: Code::Unknown, message: "no key".to_string() }));
}

#[test]
fn the_framework_login_needs_a_verified_user() {
    let found: Result<User, AuthError> = Ok(user(2, true));
    assert_eq!(FrameworkService::<(), ()>::login_secret(&found), Ok(&secret()));
    let unverified: Result<User, AuthError> = Ok(user(2, false));
    assert_eq!(FrameworkService::<(), ()>::login_secret(&unverified), Err(Status { code: Code::Unauthenticated, message: ERR_USER_NOT_VERIFIED.to_string() }));
    let missing: Result<User, AuthError> = Err(AuthError::NotFound);
    assert_eq!(FrameworkService::<(), ()>::login_secret(&missing), Err(Status { code: Code::NotFound, message: ERR_NOT_FOUND.to_string() }));
}

#[test]
fn the_user_service_is_not_implemented() {
    let srv = UserServiceImplementation {};
    let unimplemented = Err(Status { code: Code::Unimplemented, message: String::new() });
    assert_eq!(srv.login(), unimplemented);
    assert_eq!(srv.logout(), unimplemented);
    assert_eq!(srv.signup(), unimplemented);
    assert_eq!(srv.delete(), unimplemented);
    assert_eq!(reset_password_answer(), Status { code: Code::Unimplemented, message: "not implemented".to_string() });
}

#[test]
fn users_without_id_are_inserted() {
    let mut u = user(0, false);
    assert!(PostgresUserRepository::creates(&u));
    PostgresUserRepository::set_created_id(&mut u, 12);
    assert_eq!(u.id, 12);
    assert!(!PostgresUserRepository::creates(&u));
}

#[test]
fn the_verification_email() {
    let (to, subject, body) = EmailSenderImplementation::verification_email("e@example.com");
    assert_eq!(to, "e@example.com");
    assert_eq!(subject, "Verification email");
    assert_eq!(body, "<h1>Click here in order to verificate your email</h1>");
}

fn user_service(allow_unverified: bool) -> UserImplementation<()> {
    UserImplementation {
        user_app: (),
        rsa_secret: b"",
        rsa_public: b"",
        jwt_secret: b"",
        jwt_public: b"",
        jwt_header: "token",
        allow_unverified,
    }
}

#[test]
fn signups_are_planned_by_header_and_setting() {
    assert_eq!(user_service(false).signup_plan(true), SignupPlan::Secure);
    assert_eq!(user_service(true).signup_plan(true), SignupPlan::Secure);
    assert_eq!(user_service(false).signup_plan(false), SignupPlan::Verify);
    assert_eq!(user_service(true).signup_plan(false), SignupPlan::Signup);
    assert_eq!(unverified_answer(Ok(())), Status { code: Code::FailedPrecondition, message: ERR_UNVERIFIED.to_string() });
    assert_eq!(unverified_answer(Err(AuthError::NotFound)), Status { code: Code::Aborted, message: ERR_SEND_EMAIL.to_string() });
}

#[test]
fn signup_tokens_travel_in_base64() {
    assert_eq!(decode_token("aGVsbG8="), Ok(b"hello".to_vec()));
    assert_eq!(decode_token("not base64!"), Err(Status { code: Code::Aborted, message: ERR_PARSE_HEADER.to_string() }));
    assert_eq!(encode_token(b"hello"), "aGVsbG8=");
    assert_eq!(encode_token(b"Man"), "TWFu");
    assert_eq!(encode_token(b"Ma"), "TWE=");
    assert_eq!(encode_token(b"M"), "TQ==");
    assert_eq!(encode_token(b""), "");
    assert_eq!(decrypted_token(Ok(vec![1])), Ok(vec![1]));
    assert_eq!(decrypted_token(Err("x".to_string())), Err(Status { code: Code::Aborted, message: ERR_DECRYPT_TOKEN.to_string() }));
}

#[test]
fn totp_requests_enable_or_disable() {
    assert_eq!(totp_action(0), Ok(TotpAction::Enable));
    assert_eq!(totp_action(1), Ok(TotpAction::Disable));
    assert_eq!(totp_action(2), Err(Status { code: Code::InvalidArgument, message: ERR_INVALID_OPTION.to_string() }));
    assert_eq!(totp_action(-1), Err(Status { code: Code::InvalidArgument, message: ERR_INVALID_OPTION.to_string() }));
}

type Method = TpAppMethod<(), (), ()>;

#[test]
fn totp_cache_keys_name_the_user() {
    assert_eq!(Method::key(&user(42, false)), "42::totp");
    assert_eq!(Method::key(&user(-7, false)), "-7::totp");
    assert_eq!(decimal_text(0), "0");
    assert_eq!(decimal_text(i32::MIN), "-2147483648");
    assert_eq!(decimal_text(i32::MAX), "2147483647");
}

#[test]
fn second_factor_steps() {
    let otp = Otp { value: "123456".to_string() };
    assert_eq!(Method::required(None), Err(MfaError::Required));
    assert_eq!(Method::required(Some(&otp)), Ok(&otp));
    assert_eq!(Method::verdict(Ok(true)), Ok(()));
    assert_eq!(Method::verdict(Ok(false)), Err(MfaError::Invalid));
    assert_eq!(Method::verdict(Err(AuthError::Totp)), Err(MfaError::Repository(AuthError::Totp)));
    assert_eq!(Method::cached(Err(AuthError::NotFound)), Ok(None));
    assert_eq!(Method::cached(Err(AuthError::Totp)), Err(MfaError::Repository(AuthError::Totp)));
    assert_eq!(Method::cached(Ok(otp.clone())), Ok(Some(otp.clone())));
    assert_eq!(Method::acknowledge(otp.clone(), Ok(())), MfaError::Ack("123456".to_string()));
    assert_eq!(Method::acknowledge(otp.clone(), Err(AuthError::NotFound)), MfaError::Repository(AuthError::NotFound));
    let s = Method::confirmed_secret(&user(5, false), &otp);
    assert_eq!((s.owner, s.kind, s.name.as_str(), s.data.as_slice()), (5, SecretKind::Otp, "totp", &b"123456"[..]));
    let method: Method = TpAppMethod { otp_timeout: 300, totp_secret_len: 32, secret_repo: Arc::new(()), mail_srv: Arc::new(()), cache: Arc::new(()) };
    let (drawn, write) = method.totp_secret(&user(5, false), 12).unwrap();
    assert_eq!(drawn.value.len(), 12);
    assert_eq!(write, EnableAction::WriteCache("5::totp".to_string(), drawn.clone(), 300));
    let (drawn, write) = method.totp_secret(&user(-7, false), 4).unwrap();
    assert_eq!(write, EnableAction::WriteCache("-7::totp".to_string(), drawn, 300));
}

#[test]
fn the_framework_login_runs_lookup_password_and_session() {
    type F = FrameworkService<(), ()>;
    let go = |step, event| F::login_step("carol@example.com", "pw", "app", step, event);
    assert_eq!(
        go(LoginStep::Start, LoginEvent::Begin("carol@example.com".to_string(), "pw".to_string(), "app".to_string())),
        (LoginStep::UserAsked, LoginAction::FindUser("carol@example.com".to_string()))
    );
    assert_eq!(
        go(LoginStep::UserAsked, LoginEvent::UserFound(Ok(user(2, true)))),
        (LoginStep::PasswordAsked, LoginAction::CheckPassword(vec![1, 2], "pw".to_string()))
    );
    assert_eq!(
        go(LoginStep::UserAsked, LoginEvent::UserFound(Ok(user(2, false)))).1,
        LoginAction::Finish(Err(Status { code: Code::Unauthenticated, message: ERR_USER_NOT_VERIFIED.to_string() }))
    );
    assert_eq!(
        go(LoginStep::PasswordAsked, LoginEvent::PasswordChecked(Err(AuthError::Unauthorized))).1,
        LoginAction::Finish(Err(Status { code: Code::Unauthenticated, message: ERR_UNAUTHORIZED.to_string() }))
    );
    assert_eq!(
        go(LoginStep::PasswordAsked, LoginEvent::PasswordChecked(Ok(()))),
        (LoginStep::SessionAsked, LoginAction::OpenSession("carol@example.com".to_string(), "app".to_string()))
    );
    assert_eq!(go(LoginStep::SessionAsked, LoginEvent::SessionOpened(Ok("tok".to_string()))).1, LoginAction::Finish(Ok("tok".to_string())));
    assert_eq!(
        go(LoginStep::SessionAsked, LoginEvent::SessionOpened(Err(AuthError::NotFound))).1,
        LoginAction::Finish(Err(Status { code: Code::Aborted, message: ERR_NOT_FOUND.to_string() }))
    );
}

#[test]
fn saving_a_user_saves_its_metadata_then_inserts_or_updates() {
    let stored = Metadata { id: 42, created_at: 1, updated_at: 2, deleted_at: None };
    let mut fresh = user(0, false);
    let (step, action) = PostgresUserRepository::save_step(&mut fresh, SaveUserStep::Start, SaveUserEvent::Begin);
    assert_eq!((step, action), (SaveUserStep::MetaAsked, SaveUserAction::SaveMeta(fresh.meta.clone())));
    let (step, action) = PostgresUserRepository::save_step(&mut fresh, step, SaveUserEvent::MetaSaved(Ok(stored.clone())));
    assert_eq!((step, action), (SaveUserStep::InsertAsked, SaveUserAction::Insert("carol@example.com".to_string(), 42)));
    assert_eq!(fresh.meta, stored);
    let (_, action) = PostgresUserRepository::save_step(&mut fresh, step, SaveUserEvent::Inserted(Ok(9)));
    assert_eq!(action, SaveUserAction::Finish(Ok(())));
    assert_eq!(fresh.id, 9);

    let mut known = user(5, false);
    let (_, action) = PostgresUserRepository::save_step(&mut known, SaveUserStep::MetaAsked, SaveUserEvent::MetaSaved(Ok(stored)));
    assert_eq!(action, SaveUserAction::Update(5, "carol@example.com".to_string(), 42));
    let (_, action) = PostgresUserRepository::save_step(&mut known, SaveUserStep::UpdateAsked, SaveUserEvent::Updated(Err(AuthError::NotFound)));
    assert_eq!(action, SaveUserAction::Finish(Err(AuthError::NotFound)));

    let mut failing = user(0, false);
    let before = failing.clone();
    let (_, action) = PostgresUserRepository::save_step(&mut failing, SaveUserStep::MetaAsked, SaveUserEvent::MetaSaved(Err(AuthError::Repository("down".to_string()))));
    assert_eq!(action, SaveUserAction::Finish(Err(AuthError::Repository("down".to_string()))));
    assert_eq!(failing, before);
}
