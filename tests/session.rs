use telegram_bot::auth::in_memory_auth::InMemoryAuth;
use telegram_bot::error::AuthError;
use telegram_bot::schemas::user::{Token, UserIn};
use telegram_bot::text::signed_decimal_string;

fn token(t: &str, expires_at: i64) -> Token {
    Token { token: t.to_string(), expires_at }
}

fn user(id: &str, email: &str) -> UserIn {
    UserIn { id: id.to_string(), email: email.to_string() }
}

#[test]
fn missing_session_is_invalid_and_has_no_token() {
    let auth = InMemoryAuth::new();
    assert!(!auth.validate_session_at(42, 0));
    assert!(!auth.validate_session(42));
    match auth.get_session_token(42) {
        Err(AuthError::SessionNotFound(chat)) => assert_eq!(chat, "42"),
        other => panic!("unexpected {:?}", other),
    }
    match auth.get_session(-7) {
        Err(AuthError::SessionNotFound(chat)) => assert_eq!(chat, "-7"),
        other => panic!("unexpected {:?}", other),
    }
}

#[test]
fn expired_session_is_invalid() {
    let mut auth = InMemoryAuth::new();
    auth.new_session(1, "pw".to_string(), token("t", 1_000), user("u", "a@b.com"));
    assert!(auth.validate_session_at(1, 999));
    assert!(!auth.validate_session_at(1, 1_000));
    assert!(!auth.validate_session_at(1, 5_000));
    assert!(!auth.validate_session(1));
}

#[test]
fn session_valid_now_with_far_expiry() {
    let mut auth = InMemoryAuth::new();
    auth.new_session(1, "pw".to_string(), token("t", i64::MAX), user("u", "a@b.com"));
    assert!(auth.validate_session(1));
}

#[test]
fn create_then_get_token_overwrites() {
    let mut auth = InMemoryAuth::new();
    auth.new_session(5, "pw1".to_string(), token("first", 10), user("u1", "a@b.com"));
    auth.new_session(5, "pw2".to_string(), token("second", 20), user("u2", "c@d.com"));
    assert_eq!(auth.get_session_token(5).unwrap(), "second");
    let s = auth.get_session(5).unwrap();
    assert_eq!(s.user_id, "u2");
    assert_eq!(s.email, "c@d.com");
    assert_eq!(s.password, "pw2");
    assert!(s.is_active);
}

#[test]
fn renewal_keeps_identity_and_replaces_token() {
    let mut auth = InMemoryAuth::new();
    auth.new_session(9, "Secret123".to_string(), token("old", 10), user("u9", "x@y.com"));
    let login = auth.renewal_request(9).unwrap();
    assert_eq!(login.email, "x@y.com");
    assert_eq!(login.password, "Secret123");
    assert!(login.user_type.is_none());
    auth.reset_token(9, token("new", 99)).unwrap();
    let s = auth.get_session(9).unwrap();
    assert_eq!(s.user_id, "u9");
    assert_eq!(s.email, "x@y.com");
    assert_eq!(s.password, "Secret123");
    assert_eq!(s.token.token, "new");
    assert_eq!(s.token.expires_at, 99);
    assert!(s.is_active);
}

#[test]
fn renewal_of_missing_session_fails() {
    let mut auth = InMemoryAuth::new();
    assert!(matches!(auth.renewal_request(3), Err(AuthError::SessionNotFound(_))));
    assert!(matches!(auth.reset_token(3, token("t", 1)), Err(AuthError::SessionNotFound(_))));
    assert!(auth.get_session_token(3).is_err());
}

#[test]
fn chat_ids_as_text() {
    assert_eq!(signed_decimal_string(0), "0");
    assert_eq!(signed_decimal_string(-1001234), "-1001234");
    assert_eq!(signed_decimal_string(i64::MIN), "-9223372036854775808");
    assert_eq!(signed_decimal_string(i64::MAX), "9223372036854775807");
}
