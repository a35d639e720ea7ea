use babangida::domain::auth::{
    session_ttl, Credential, Password, PasswordError, PasswordHash, Session, SessionToken,
    SessionTokenError,
};
use babangida::domain::identity::UserId;
use babangida::shared::id::Id;
use babangida::shared::time::{Duration, Timestamp};

fn user() -> UserId {
    Id::generate()
}

#[test]
fn password_enforces_length() {
    assert!(matches!(
        Password::parse("short"),
        Err(PasswordError::TooShort { len: 5 })
    ));
    assert!(Password::parse("longenough").is_ok());
    assert!(matches!(
        Password::parse(&"x".repeat(201)),
        Err(PasswordError::TooLong { len: 201 })
    ));
}

#[test]
fn password_debug_is_redacted() {
    let p = Password::parse("supersecret").unwrap();
    assert_eq!(p.debug_string(), "Password(***)");
    assert_eq!(p.expose(), "supersecret");
}

#[test]
fn session_token_validates_charset_and_length() {
    assert!(SessionToken::parse(&"a".repeat(40)).is_ok());
    assert!(matches!(
        SessionToken::parse("tooshort"),
        Err(SessionTokenError::WrongLength { .. })
    ));
    assert!(matches!(
        SessionToken::parse(&format!("{}!", "a".repeat(39))),
        Err(SessionTokenError::InvalidChar('!'))
    ));
}

#[test]
fn session_token_debug_is_redacted() {
    let t = SessionToken::parse(&"a".repeat(40)).unwrap();
    assert_eq!(t.debug_string(), "SessionToken(***)");
}

#[test]
fn session_active_until_expiry() {
    let now = Timestamp::now();
    let token = SessionToken::parse(&"a".repeat(40)).unwrap();
    let (session, event) = Session::issue(Id::generate(), token, user(), now, session_ttl());
    assert!(session.is_active(now));
    assert!(session.is_active(now + Duration::days(29)));
    assert!(!session.is_active(now + session_ttl()));
    assert!(!session.is_active(now + Duration::days(31)));
    assert_eq!(event.expires_at, now + session_ttl());
}

#[test]
fn credential_keeps_hash_not_password() {
    let now = Timestamp::now();
    let cred = Credential::establish(user(), PasswordHash::from_storage("phc$...".to_owned()), now);
    assert_eq!(cred.hash().as_str(), "phc$...");
    assert_eq!(cred.established_at(), now);
}
