use babangida::domain::identity::{
    Invite, InviteCode, InviteError, InviteId, InviteQuota, IssuanceContext, UserId,
};
use babangida::shared::id::Id;
use babangida::shared::time::{Duration, Timestamp};

fn uid() -> UserId {
    Id::generate()
}

fn iid() -> InviteId {
    Id::generate()
}

fn code() -> InviteCode {
    InviteCode::parse("ABCD1234").expect("valid code")
}

fn ctx(quota: InviteQuota, active_count: u32, last_issued_at: Option<Timestamp>, now: Timestamp) -> IssuanceContext {
    IssuanceContext { quota, active_count, last_issued_at, now }
}

#[test]
fn issues_when_under_quota_and_no_prior() {
    let now = Timestamp::now();
    let (invite, event) = Invite::issue(iid(), code(), uid(), ctx(InviteQuota::Limited(2), 0, None, now))
        .expect("must be issued");
    assert!(invite.is_active());
    assert_eq!(event.issued_at, now);
}

#[test]
fn quota_blocks_when_active_at_limit() {
    let now = Timestamp::now();
    let err = Invite::issue(
        iid(),
        code(),
        uid(),
        ctx(InviteQuota::Limited(2), 2, Some(now + Duration::hours(-24)), now),
    )
    .unwrap_err();
    assert_eq!(err, InviteError::QuotaExceeded { active: 2, limit: 2 });
}

#[test]
fn cooldown_blocks_within_window() {
    let now = Timestamp::now();
    let last = now + Duration::hours(-6);
    let err = Invite::issue(iid(), code(), uid(), ctx(InviteQuota::Limited(2), 0, Some(last), now)).unwrap_err();
    match err {
        InviteError::CooldownActive { retry_after } => {
            assert_eq!(retry_after, Duration::hours(6));
        }
        other => panic!("expected CooldownActive, got {other:?}"),
    }
}

#[test]
fn cooldown_passes_after_window() {
    let now = Timestamp::now();
    let last = now + Duration::hours(-13);
    assert!(Invite::issue(iid(), code(), uid(), ctx(InviteQuota::Limited(2), 1, Some(last), now)).is_ok());
}

#[test]
fn cooldown_boundary_exactly_12h_is_allowed() {
    let now = Timestamp::now();
    let last = now + Duration::hours(-12);
    assert!(Invite::issue(iid(), code(), uid(), ctx(InviteQuota::Limited(2), 0, Some(last), now)).is_ok());
}

#[test]
fn admin_bypasses_quota_and_cooldown() {
    let now = Timestamp::now();
    let last = now + Duration::minutes(-1);
    assert!(Invite::issue(iid(), code(), uid(), ctx(InviteQuota::Unlimited, 999, Some(last), now)).is_ok());
}

#[test]
fn accept_active_marks_accepted_and_emits_event() {
    let now = Timestamp::now();
    let inviter = uid();
    let (mut invite, _) = Invite::issue(iid(), code(), inviter, ctx(InviteQuota::Limited(2), 0, None, now)).unwrap();
    let invitee = uid();
    let event = invite.accept(invitee, now + Duration::hours(1)).expect("accepting an active invite");
    assert_eq!(event.accepted_by, invitee);
    assert!(!invite.is_active());
}

#[test]
fn cannot_accept_twice() {
    let now = Timestamp::now();
    let (mut invite, _) = Invite::issue(iid(), code(), uid(), ctx(InviteQuota::Limited(2), 0, None, now)).unwrap();
    invite.accept(uid(), now).unwrap();
    assert_eq!(invite.accept(uid(), now).unwrap_err(), InviteError::NotActive);
}

#[test]
fn cannot_accept_own_invite() {
    let now = Timestamp::now();
    let inviter = uid();
    let (mut invite, _) = Invite::issue(iid(), code(), inviter, ctx(InviteQuota::Limited(2), 0, None, now)).unwrap();
    assert_eq!(invite.accept(inviter, now).unwrap_err(), InviteError::SelfAccept);
}
