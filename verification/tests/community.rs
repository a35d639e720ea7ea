use babangida::domain::community::{
    CommunityError, Group, GroupKind, GroupKindError, GroupName, GroupSlug, GroupSlugError,
    MembershipRole,
};
use babangida::domain::identity::UserId;
use babangida::shared::id::Id;
use babangida::shared::time::Timestamp;

fn uid() -> UserId {
    Id::generate()
}

fn group(kind: GroupKind, owner: UserId) -> Group {
    Group::found(
        Id::generate(),
        GroupSlug::parse("podval").unwrap(),
        GroupName::parse("Подвал").unwrap(),
        kind,
        owner,
        Timestamp::now(),
    )
    .0
}

#[test]
fn slug_normalizes_like_handle() {
    assert_eq!(GroupSlug::parse(" Podval_1 ").unwrap().as_str(), "podval_1");
    assert_eq!(GroupSlug::parse("ab"), Err(GroupSlugError::TooShort { len: 2 }));
    assert_eq!(GroupSlug::parse("1bad"), Err(GroupSlugError::InvalidStart));
}

#[test]
fn kind_and_role_roundtrip() {
    assert_eq!(GroupKind::parse("PUBLIC").unwrap(), GroupKind::Public);
    assert_eq!(GroupKind::parse("xz"), Err(GroupKindError));
    assert_eq!(MembershipRole::parse("Owner").unwrap(), MembershipRole::Owner);
    assert!(MembershipRole::Moderator.can_moderate());
    assert!(!MembershipRole::Member.can_moderate());
}

#[test]
fn founder_is_owner() {
    let owner = uid();
    let (g, event) = Group::found(
        Id::generate(),
        GroupSlug::parse("podval").unwrap(),
        GroupName::parse("Подвал").unwrap(),
        GroupKind::Public,
        owner,
        Timestamp::now(),
    );
    assert_eq!(g.role_of(owner), Some(MembershipRole::Owner));
    assert_eq!(g.member_count(), 1);
    assert_eq!(event.owner, owner);
}

#[test]
fn self_join_public_then_blocks_duplicate() {
    let mut g = group(GroupKind::Public, uid());
    let u = uid();
    assert_eq!(g.join(u, Timestamp::now()).unwrap().role, MembershipRole::Member);
    assert_eq!(g.join(u, Timestamp::now()).unwrap_err(), CommunityError::AlreadyMember);
}

#[test]
fn self_join_closed_is_blocked() {
    let mut g = group(GroupKind::Closed, uid());
    assert_eq!(g.join(uid(), Timestamp::now()).unwrap_err(), CommunityError::JoinNotAllowed);
}

#[test]
fn moderator_adds_member_but_not_owner() {
    let owner = uid();
    let mut g = group(GroupKind::Closed, owner);
    let newbie = uid();
    assert!(g.add_member(owner, newbie, MembershipRole::Member, Timestamp::now()).is_ok());
    assert!(g.is_member(newbie));
    assert_eq!(
        g.add_member(owner, uid(), MembershipRole::Owner, Timestamp::now()).unwrap_err(),
        CommunityError::CannotAssignOwner
    );
}

#[test]
fn non_moderator_cannot_add() {
    let mut g = group(GroupKind::Closed, uid());
    let stranger = uid();
    assert_eq!(
        g.add_member(stranger, uid(), MembershipRole::Member, Timestamp::now()).unwrap_err(),
        CommunityError::NotPermitted
    );
}

#[test]
fn cannot_demote_or_remove_sole_owner() {
    let owner = uid();
    let mut g = group(GroupKind::Closed, owner);
    assert_eq!(
        g.set_role(owner, owner, MembershipRole::Member, Timestamp::now()).unwrap_err(),
        CommunityError::SoleOwner
    );
    assert_eq!(g.leave(owner, Timestamp::now()).unwrap_err(), CommunityError::SoleOwner);
}

#[test]
fn owner_promotes_then_can_step_down() {
    let owner = uid();
    let mut g = group(GroupKind::Closed, owner);
    let heir = uid();
    g.add_member(owner, heir, MembershipRole::Member, Timestamp::now()).unwrap();
    g.set_role(owner, heir, MembershipRole::Owner, Timestamp::now()).unwrap();
    assert_eq!(g.role_of(heir), Some(MembershipRole::Owner));
    assert!(g.leave(owner, Timestamp::now()).is_ok());
    assert_eq!(g.role_of(owner), None);
}

#[test]
fn remove_member_guards_owner_and_membership() {
    let owner = uid();
    let mut g = group(GroupKind::Closed, owner);
    let member = uid();
    g.add_member(owner, member, MembershipRole::Member, Timestamp::now()).unwrap();
    assert!(g.remove_member(owner, member, Timestamp::now()).is_ok());
    assert!(!g.is_member(member));
    assert_eq!(
        g.remove_member(owner, owner, Timestamp::now()).unwrap_err(),
        CommunityError::CannotRemoveOwner
    );
    assert_eq!(
        g.remove_member(owner, uid(), Timestamp::now()).unwrap_err(),
        CommunityError::TargetNotMember
    );
}

#[test]
fn posting_policy_differs_by_kind() {
    let owner = uid();
    let member = uid();

    let mut closed = group(GroupKind::Closed, owner);
    closed.add_member(owner, member, MembershipRole::Member, Timestamp::now()).unwrap();
    assert!(closed.can_post(owner));
    assert!(closed.can_post(member));
    assert!(!closed.can_post(uid()));

    let mut public = group(GroupKind::Public, owner);
    public.join(member, Timestamp::now()).unwrap();
    assert!(public.can_post(owner));
    assert!(!public.can_post(member));
}

#[test]
fn read_policy_differs_by_kind() {
    let owner = uid();
    let closed = group(GroupKind::Closed, owner);
    assert!(closed.allows_read(Some(owner)));
    assert!(!closed.allows_read(Some(uid())));
    assert!(!closed.allows_read(None));

    let public = group(GroupKind::Public, owner);
    assert!(public.allows_read(None));
}
