use babangida::domain::community::{GroupKind, GroupSlug, MembershipRole};
use babangida::domain::identity::{Handle, User, UserId, UserRole, VerifiedStatus};
use babangida::domain::RepositoryError;
use babangida::domain::marketplace::ListingStatus;
use babangida::domain::music::TrackStatus;
use babangida::domain::openapi::ApiKeyStatus;
use babangida::domain::social::Subculture;
use babangida::domain::verification::RequestStatus;
use babangida::infrastructure::records::identity::{
    parse_role, parse_verified, role_str, row_to_user, store_failure, verified_str,
};
use babangida::infrastructure::records::messaging::canonical;
use babangida::infrastructure::records::music::parse_status as parse_track_status;
use babangida::infrastructure::records::openapi::parse_status as parse_key_status;
use babangida::infrastructure::records::verification::parse_status as parse_request_status;
use babangida::shared::id::Id;
use babangida::shared::time::{Duration, Timestamp};

#[test]
fn a_parsed_handle_parses_to_itself() {
    let first = Handle::parse("  Rapper_One ").unwrap();
    assert_eq!(first.as_str(), "rapper_one");
    assert_eq!(Handle::parse(first.as_str()).unwrap(), first);
}

#[test]
fn a_parsed_slug_parses_to_itself() {
    let first = GroupSlug::parse(" PODVAL_2 ").unwrap();
    assert_eq!(GroupSlug::parse(first.as_str()).unwrap(), first);
}

#[test]
fn kinds_roles_and_subcultures_read_back_from_their_text() {
    for kind in [GroupKind::Public, GroupKind::Closed] {
        assert_eq!(GroupKind::parse(kind.as_str()), Ok(kind));
    }
    for role in [MembershipRole::Owner, MembershipRole::Moderator, MembershipRole::Member] {
        assert_eq!(MembershipRole::parse(role.as_str()), Ok(role));
    }
    for s in [Subculture::Underground, Subculture::Casual, Subculture::Skin, Subculture::HipHop] {
        assert_eq!(Subculture::parse(s.as_str()), Ok(s));
    }
}

#[test]
fn stored_statuses_read_back() {
    for role in [UserRole::Member, UserRole::Admin] {
        assert_eq!(parse_role(role_str(role)), Ok(role));
    }
    for s in [TrackStatus::Published, TrackStatus::Withdrawn] {
        assert_eq!(parse_track_status(s.as_str()), Ok(s));
    }
    for s in [ApiKeyStatus::Active, ApiKeyStatus::Revoked] {
        assert_eq!(parse_key_status(s.as_str()), Ok(s));
    }
    for s in [RequestStatus::Pending, RequestStatus::Approved, RequestStatus::Rejected] {
        assert_eq!(parse_request_status(s.as_str()), Ok(s));
    }
    assert_eq!(ListingStatus::Sold.as_str(), "sold");
}

#[test]
fn the_canonical_pair_ignores_order() {
    let a: UserId = Id::generate();
    let b: UserId = Id::generate();
    assert_eq!(canonical(a, b), canonical(b, a));
    assert!(canonical(a, b).0 <= canonical(a, b).1);
}

#[test]
fn adding_then_measuring_gives_the_step_back() {
    let t = Timestamp::now();
    let d = Duration::hours(12);
    assert_eq!((t + d).duration_since(t), d);
}

#[test]
fn a_verification_status_reads_back_from_its_stored_text() {
    for v in [VerifiedStatus::Verified, VerifiedStatus::Casual] {
        assert_eq!(parse_verified(verified_str(v)), v);
    }
    assert_eq!(parse_verified("whatever"), VerifiedStatus::Casual);
}

#[test]
fn store_failures_are_classified() {
    assert_eq!(store_failure(true, true, "x".to_owned()), RepositoryError::NotFound);
    assert_eq!(store_failure(false, true, "x".to_owned()), RepositoryError::Conflict);
    assert_eq!(
        store_failure(false, false, "pool timed out".to_owned()),
        RepositoryError::Unavailable("pool timed out".to_owned())
    );
}

#[test]
fn a_stored_user_reads_back_as_the_same_user() {
    let now = Timestamp::now();
    let mut user = User::register(Id::generate(), Handle::parse("Rapper_One").unwrap(), UserRole::Admin, now);
    user.verify();
    let row = row_to_user(
        user.id().as_uuid(),
        user.handle().as_str().to_owned(),
        role_str(user.role()).to_owned(),
        verified_str(user.verified()).to_owned(),
        user.created_at(),
    );
    assert_eq!(row, Ok(user));
}

#[test]
fn parsed_texts_parse_to_themselves() {
    let body = babangida::domain::content::PostBody::parse("  йоу  ").unwrap();
    assert_eq!(babangida::domain::content::PostBody::parse(body.as_str()).unwrap().as_str(), body.as_str());
    let msg = babangida::domain::messaging::MessageBody::parse(" hi ").unwrap();
    assert_eq!(babangida::domain::messaging::MessageBody::parse(msg.as_str()).unwrap().as_str(), msg.as_str());
    let name = babangida::domain::social::DisplayName::parse("  Гуф ").unwrap();
    assert_eq!(babangida::domain::social::DisplayName::parse(name.as_str()).unwrap().as_str(), "Гуф");
    let group = babangida::domain::community::GroupName::parse(" Подвал ").unwrap();
    assert_eq!(babangida::domain::community::GroupName::parse(group.as_str()).unwrap().as_str(), "Подвал");
    let audio = babangida::domain::music::AudioRef::parse(" https://a.example/t.mp3 ").unwrap();
    assert_eq!(
        babangida::domain::music::AudioRef::parse(audio.as_str()).unwrap().as_str(),
        "https://a.example/t.mp3"
    );
    let code = babangida::domain::identity::InviteCode::parse(" ABCD1234 ").unwrap();
    assert_eq!(babangida::domain::identity::InviteCode::parse(code.as_str()).unwrap().as_str(), "ABCD1234");
}
