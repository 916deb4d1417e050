use rauth::errors::AuthError;
use rauth::metadata::domain::Metadata;
use rauth::session::domain::{SaveError, Session, SessionRepository};
use rauth::session::framework::{InMemorySessionRepository, STORE_NOT_FOUND, STORE_NO_TOKEN};
use rauth::user::domain::User;

fn user(id: i32, email: &str) -> User {
    User {
        id,
        name: format!("user{}", id),
        email: email.to_string(),
        password: String::new(),
        secret: None,
        meta: Metadata { id, created_at: 0, updated_at: 0, deleted_at: None },
    }
}

fn session(id: i32, email: &str, token: &str) -> Session {
    Session::new_at(user(id, email), token.to_string(), 60, Metadata { id: 0, created_at: 0, updated_at: 0, deleted_at: None }, 1000)
}

#[test]
fn a_saved_session_is_found_by_token_and_email() {
    let mut repo = InMemorySessionRepository::new();
    assert_eq!(repo.save(session(1, "a@x.io", ""), "tok-a".to_string()).map_err(|_| ()), Ok(()));
    let found = repo.find("tok-a").unwrap();
    assert_eq!(found.token, "tok-a");
    assert_eq!(found.user.id, 1);
    assert_eq!(found.deadline, 1060);
    assert_eq!(repo.find_by_email("a@x.io").unwrap().token, "tok-a");
    assert_eq!(repo.find("tok-b").err(), Some(AuthError::Repository(STORE_NOT_FOUND.to_string())));
    assert_eq!(repo.find_by_email("b@x.io").err(), Some(AuthError::Repository(STORE_NOT_FOUND.to_string())));
}

#[test]
fn a_second_session_of_the_same_email_is_refused() {
    let mut repo = InMemorySessionRepository::new();
    assert!(repo.save(session(1, "a@x.io", ""), "tok-a".to_string()).is_ok());
    assert!(matches!(repo.save(session(2, "a@x.io", ""), "tok-b".to_string()), Err(SaveError::EmailExists)));
    assert_eq!(repo.find("tok-b").err(), Some(AuthError::Repository(STORE_NOT_FOUND.to_string())));
}

#[test]
fn a_session_whose_token_is_stored_is_refused() {
    let mut repo = InMemorySessionRepository::new();
    assert!(repo.save(session(1, "a@x.io", ""), "tok-a".to_string()).is_ok());
    assert!(matches!(repo.save(session(2, "b@x.io", "tok-a"), "tok-b".to_string()), Err(SaveError::TokenExists)));
}

#[test]
fn a_taken_fresh_token_hands_the_session_back() {
    let mut repo = InMemorySessionRepository::new();
    assert!(repo.save(session(1, "a@x.io", ""), "tok-a".to_string()).is_ok());
    match repo.save(session(2, "b@x.io", ""), "tok-a".to_string()) {
        Err(SaveError::TokenTaken(s)) => {
            assert_eq!(s, session(2, "b@x.io", ""));
            assert!(repo.save(s, "tok-b".to_string()).is_ok());
        }
        _ => panic!("expected the session back"),
    }
    assert_eq!(repo.find("tok-b").unwrap().user.id, 2);
    assert_eq!(repo.find("tok-a").unwrap().user.id, 1);
}

#[test]
fn a_deleted_session_is_gone_and_others_stay() {
    let mut repo = InMemorySessionRepository::new();
    assert!(repo.save(session(1, "a@x.io", ""), "tok-a".to_string()).is_ok());
    assert!(repo.save(session(2, "b@x.io", ""), "tok-b".to_string()).is_ok());
    let a = repo.find("tok-a").unwrap().clone();
    assert_eq!(repo.delete(&a), Ok(()));
    assert_eq!(repo.find("tok-a").err(), Some(AuthError::Repository(STORE_NOT_FOUND.to_string())));
    assert_eq!(repo.find("tok-b").unwrap().user.id, 2);
    assert_eq!(repo.delete(&a), Err(AuthError::Repository(STORE_NO_TOKEN.to_string())));
    assert!(repo.save(session(3, "a@x.io", ""), "tok-c".to_string()).is_ok());
}

#[test]
fn session_has_email_compares_the_users_email() {
    let s = session(1, "a@x.io", "t");
    assert!(InMemorySessionRepository::session_has_email(&s, "a@x.io"));
    assert!(!InMemorySessionRepository::session_has_email(&s, "b@x.io"));
}

#[test]
fn new_sessions_end_after_their_timeout() {
    let s = Session::new(user(1, "a@x.io"), "t".to_string(), 30, Metadata { id: 0, created_at: 0, updated_at: 0, deleted_at: None });
    assert!(s.deadline >= 30);
    assert_eq!(s.token, "t");
}

#[test]
fn deleting_a_just_saved_session_undoes_the_save() {
    let mut repo = InMemorySessionRepository::new();
    repo.save(session(1, "a@x.io", ""), "tok-a".to_string()).unwrap();
    repo.save(session(2, "b@x.io", ""), "tok-b".to_string()).unwrap();
    let b = repo.find("tok-b").unwrap().clone();
    assert_eq!(repo.delete(&b), Ok(()));
    assert_eq!(repo.find("tok-b").err(), Some(AuthError::Repository(STORE_NOT_FOUND.to_string())));
    assert_eq!(repo.find_by_email("b@x.io").err(), Some(AuthError::Repository(STORE_NOT_FOUND.to_string())));
    assert_eq!(repo.find_by_email("a@x.io").unwrap().token, "tok-a");
    repo.save(session(2, "b@x.io", ""), "tok-b".to_string()).unwrap();
    assert_eq!(repo.find("tok-b").unwrap().user.id, 2);
}
