use babangida::domain::identity::{UserId, VerifiedStatus};
use babangida::domain::openapi::{
    ApiKey, ApiKeyHash, ApiKeyLabel, ApiKeyLabelError, ApiKeyStatus, ApiKeyToken,
    ApiKeyTokenError, OpenApiError,
};
use babangida::shared::id::Id;
use babangida::shared::time::Timestamp;

fn label() -> ApiKeyLabel {
    ApiKeyLabel::parse("ci-bot").unwrap()
}

fn hash() -> ApiKeyHash {
    ApiKeyHash::from_storage("sha256:deadbeef".to_owned())
}

fn issued(owner: UserId) -> ApiKey {
    ApiKey::issue(Id::generate(), owner, VerifiedStatus::Verified, label(), hash(), Timestamp::now())
        .expect("a verified owner issues")
        .0
}

#[test]
fn token_validates_and_redacts() {
    assert!(ApiKeyToken::parse("bbg_0123456789abcd").is_ok());
    assert!(matches!(ApiKeyToken::parse("short"), Err(ApiKeyTokenError::WrongLength { .. })));
    assert!(matches!(
        ApiKeyToken::parse(&format!("bbg_{}!", "a".repeat(20))),
        Err(ApiKeyTokenError::InvalidChar('!'))
    ));
    let t = ApiKeyToken::parse("bbg_0123456789abcd").unwrap();
    assert_eq!(t.debug_string(), "ApiKeyToken(***)");
}

#[test]
fn label_validates() {
    assert_eq!(ApiKeyLabel::parse("  "), Err(ApiKeyLabelError::Empty));
    assert!(matches!(ApiKeyLabel::parse(&"x".repeat(81)), Err(ApiKeyLabelError::TooLong { .. })));
}

#[test]
fn casual_cannot_issue() {
    let err = ApiKey::issue(Id::generate(), Id::generate(), VerifiedStatus::Casual, label(), hash(), Timestamp::now())
        .err()
        .unwrap();
    assert_eq!(err, OpenApiError::NotVerified);
}

#[test]
fn verified_issues_active() {
    let owner = Id::generate();
    let (key, event) = match ApiKey::issue(Id::generate(), owner, VerifiedStatus::Verified, label(), hash(), Timestamp::now()) {
        Ok(pair) => pair,
        Err(e) => panic!("{e:?}"),
    };
    assert!(key.status().is_active());
    assert_eq!(key.owner(), owner);
    assert_eq!(event.owner, owner);
}

#[test]
fn only_owner_revokes() {
    let owner = Id::generate();
    let mut key = issued(owner);
    assert_eq!(key.revoke(Id::generate()).unwrap_err(), OpenApiError::NotOwner);
    assert!(key.revoke(owner).is_ok());
    assert_eq!(key.status(), ApiKeyStatus::Revoked);
}

#[test]
fn cannot_revoke_twice() {
    let owner = Id::generate();
    let mut key = issued(owner);
    key.revoke(owner).unwrap();
    assert_eq!(key.revoke(owner).unwrap_err(), OpenApiError::AlreadyRevoked);
}
