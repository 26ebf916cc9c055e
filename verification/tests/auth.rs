use dubna_internship::db::user::{Id, PasswordHash, Role, User};
use dubna_internship::token::{issue_token, validate_token, AuthError};

fn credential_user(login: &str, password: &str) -> User {
    User {
        id: Id::from(1),
        name: "Alice".to_string(),
        role: Role::Initiator,
        login: login.to_string(),
        password_hash: PasswordHash::new(password),
    }
}

#[test]
fn retreieves_access_token() {
    let alice = credential_user("alice", "password");
    let token = issue_token(&Some(alice), "password", "topsecret", 1_700_000_000, 3600);
    assert!(token.is_ok());
}

#[test]
fn rejects_wrong_password() {
    let alice = credential_user("alice", "password");
    let err = issue_token(&Some(alice), "hunter2", "topsecret", 1_700_000_000, 3600).unwrap_err();
    assert_eq!(err, AuthError::WrongLoginOrPassword);
}

#[test]
fn rejects_unknown_login() {
    let err = issue_token(&None, "password", "topsecret", 1_700_000_000, 3600).unwrap_err();
    assert_eq!(err, AuthError::WrongLoginOrPassword);
}

#[test]
fn token_round_trip() {
    let now = time::OffsetDateTime::now_utc().unix_timestamp();
    let alice = credential_user("alice", "password");
    let token = issue_token(&Some(alice), "password", "topsecret", now, 3600).unwrap();
    let user_id = validate_token("topsecret", &token).unwrap();
    assert_eq!(user_id, Id::from(1));
}

#[test]
fn rejects_token_signed_with_other_secret() {
    let now = time::OffsetDateTime::now_utc().unix_timestamp();
    let alice = credential_user("alice", "password");
    let token = issue_token(&Some(alice), "password", "topsecret", now, 3600).unwrap();
    let err = validate_token("othersecret", &token).unwrap_err();
    assert_eq!(err, AuthError::InvalidToken);
}

#[test]
fn rejects_expired_token() {
    let now = time::OffsetDateTime::now_utc().unix_timestamp();
    let alice = credential_user("alice", "password");
    let token = issue_token(&Some(alice), "password", "topsecret", now - 7200, 3600).unwrap();
    let err = validate_token("topsecret", &token).unwrap_err();
    assert_eq!(err, AuthError::InvalidToken);
}
