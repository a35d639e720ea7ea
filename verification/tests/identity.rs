use babangida::domain::identity::{
    ActiveInvite, Handle, HandleError, Invite, InviteCode, InviteCodeError, InviteQuota,
    IssuanceContext, User, UserRole, VerifiedStatus, VerifiedUser, MAX_ACTIVE_INVITES,
};
use babangida::domain::Specification;
use babangida::shared::id::Id;
use babangida::shared::time::Timestamp;

fn handle() -> Handle {
    Handle::parse("rapper_one").expect("valid handle")
}

#[test]
fn active_invite_spec_tracks_status() {
    let now = Timestamp::now();
    let (mut invite, _) = Invite::issue(
        Id::generate(),
        InviteCode::parse("ABCD1234").unwrap(),
        Id::generate(),
        IssuanceContext { quota: InviteQuota::Limited(2), active_count: 0, last_issued_at: None, now },
    )
    .unwrap();
    assert!(ActiveInvite.is_satisfied_by(&invite));
    invite.accept(Id::generate(), now).unwrap();
    assert!(!ActiveInvite.is_satisfied_by(&invite));
}

#[test]
fn verified_user_spec_tracks_status() {
    let mut user = User::register(Id::generate(), Handle::parse("mc_test").unwrap(), UserRole::Member, Timestamp::now());
    assert!(!VerifiedUser.is_satisfied_by(&user));
    user.verify();
    assert!(VerifiedUser.is_satisfied_by(&user));
}

#[test]
fn registered_user_is_casual() {
    let u = User::register(Id::generate(), handle(), UserRole::Member, Timestamp::now());
    assert_eq!(u.verified(), VerifiedStatus::Casual);
    assert_eq!(u.invite_quota(), InviteQuota::Limited(MAX_ACTIVE_INVITES));
}

#[test]
fn verify_promotes_status() {
    let mut u = User::register(Id::generate(), handle(), UserRole::Member, Timestamp::now());
    u.verify();
    assert!(u.verified().is_verified());
}

#[test]
fn admin_has_unlimited_quota() {
    let u = User::register(Id::generate(), handle(), UserRole::Admin, Timestamp::now());
    assert_eq!(u.invite_quota(), InviteQuota::Unlimited);
}

#[test]
fn handle_normalizes_and_accepts_valid() {
    let h = Handle::parse("  FenFen_99 ").expect("valid handle");
    assert_eq!(h.as_str(), "fenfen_99");
}

#[test]
fn handle_rejects_bad_input() {
    assert_eq!(Handle::parse(""), Err(HandleError::Empty));
    assert_eq!(Handle::parse("ab"), Err(HandleError::TooShort { len: 2 }));
    assert!(matches!(Handle::parse("9abc"), Err(HandleError::InvalidStart)));
    assert!(matches!(Handle::parse("ab-cd"), Err(HandleError::InvalidChar('-'))));
    assert!(matches!(Handle::parse(&"a".repeat(21)), Err(HandleError::TooLong { len: 21 })));
}

#[test]
fn invite_code_validates_length_and_charset() {
    assert!(InviteCode::parse("ABCD1234").is_ok());
    assert_eq!(InviteCode::parse("short"), Err(InviteCodeError::WrongLength { len: 5 }));
    assert!(matches!(InviteCode::parse("ABCD-123"), Err(InviteCodeError::InvalidChar('-'))));
}

#[test]
fn quota_rules() {
    assert!(InviteQuota::Limited(2).allows(1));
    assert!(!InviteQuota::Limited(2).allows(2));
    assert!(InviteQuota::Unlimited.allows(999));
    assert!(InviteQuota::Limited(2).enforces_cooldown());
    assert!(!InviteQuota::Unlimited.enforces_cooldown());
}

#[test]
fn role_maps_to_quota() {
    assert_eq!(UserRole::Member.invite_quota(), InviteQuota::Limited(MAX_ACTIVE_INVITES));
    assert_eq!(UserRole::Admin.invite_quota(), InviteQuota::Unlimited);
}

#[test]
fn new_users_default_to_casual_members() {
    assert_eq!(VerifiedStatus::default(), VerifiedStatus::Casual);
    assert_eq!(UserRole::default(), UserRole::Member);
}
