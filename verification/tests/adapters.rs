use babangida::application::ports::{
    ApiKeyFactory, ApiKeyHasher, Clock, InviteCodeFactory, PasswordHasher, SessionTokenFactory,
};
use babangida::domain::auth::{Password, PasswordHash};
use babangida::domain::openapi::ApiKeyToken;
use babangida::infrastructure::openapi::hex_lower;
use babangida::infrastructure::{
    Argon2PasswordHasher, RandomApiKeyFactory, RandomInviteCodeFactory,
    RandomSessionTokenFactory, Sha256ApiKeyHasher, SystemClock,
};
use babangida::shared::time::{Duration, Timestamp};

#[test]
fn system_clock_reads_the_current_moment() {
    let before = Timestamp::now();
    let now = SystemClock.now();
    let after = Timestamp::now();
    assert!(before <= now && now <= after);
    // The Unix epoch lies decades back.
    assert!(now.into_offset() > 1_600_000_000_000_000_000);
    assert!(Timestamp::from_offset(0) + Duration::days(365 * 50) < now);
}

#[test]
fn invite_codes_are_uppercase_hex_and_valid() {
    let a = RandomInviteCodeFactory.generate();
    let b = RandomInviteCodeFactory.generate();
    assert_eq!(a.as_str().chars().count(), 32);
    assert!(a.as_str().chars().all(|c| c.is_ascii_digit() || ('A'..='F').contains(&c)));
    assert_ne!(a, b);
}

#[test]
fn session_tokens_are_alphanumeric_and_long() {
    let a = RandomSessionTokenFactory.generate();
    let b = RandomSessionTokenFactory.generate();
    assert_eq!(a.as_str().len(), 48);
    assert!(a.as_str().chars().all(|c| c.is_ascii_alphanumeric()));
    assert_ne!(a.as_str(), b.as_str());
}

#[test]
fn api_key_secrets_carry_the_prefix() {
    let t = RandomApiKeyFactory.generate();
    assert!(t.as_str().starts_with("bbg_"));
    assert_eq!(t.as_str().len(), 44);
    assert!(t.as_str()[4..].chars().all(|c| c.is_ascii_alphanumeric()));
    assert_ne!(t.as_str(), RandomApiKeyFactory.generate().as_str());
}

#[test]
fn api_key_hash_is_sha256_hex() {
    let token = ApiKeyToken::parse("bbg_0123456789abcd").unwrap();
    let h = Sha256ApiKeyHasher.hash(&token);
    assert_eq!(h.as_str(), "e4f616954037326d907b3479413e6971027a1f768001e877e8de8c692a86e0f4");
    // One token, one hash.
    assert_eq!(Sha256ApiKeyHasher.hash(&token).as_str(), h.as_str());
    let other = ApiKeyToken::parse("bbg_0123456789abcdefghijklmnopqrstuvwxyzABCD").unwrap();
    assert_eq!(
        Sha256ApiKeyHasher.hash(&other).as_str(),
        "d9b4f78d004a06f426bfd5fd92a8525746469b173acf4ed929e51117f23b483a"
    );
}

#[test]
fn hex_writes_two_lowercase_digits_a_byte() {
    assert_eq!(hex_lower(&vec![0x00, 0x0f, 0xa0, 0xff]), "000fa0ff");
    assert_eq!(hex_lower(&vec![]), "");
}

#[test]
fn argon2_hash_verifies_its_password_only() {
    let hasher = Argon2PasswordHasher;
    let password = Password::parse("supersecret").unwrap();
    let hash = hasher.hash(&password);
    assert!(hash.as_str().starts_with("$argon2id$"));
    assert!(!hash.as_str().contains("supersecret"));
    assert!(hasher.verify(&password, &hash));
    let wrong = Password::parse("notthesame").unwrap();
    assert!(!hasher.verify(&wrong, &hash));
    // A fresh salt each time.
    assert_ne!(hasher.hash(&password).as_str(), hash.as_str());
}

#[test]
fn argon2_rejects_a_foreign_hash() {
    let hasher = Argon2PasswordHasher;
    let password = Password::parse("supersecret").unwrap();
    assert!(!hasher.verify(&password, &PasswordHash::from_storage("phc$...".to_owned())));
}
