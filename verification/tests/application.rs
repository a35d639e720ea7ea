use babangida::application::command::{
    accept_invite_from, api_key_owner, approve_request, authenticate_session, authenticated_user,
    check_requester, credentials_found, issue_api_key_for, issue_invite_from, join_group_in,
    leave_group_in, list_for, log_in_session, mark_sold_by, open_conversation_for, password_checked,
    open_request_unless_pending, post_to_group_in, register_member, reject_request,
    release_for, require_admin, require_found, revoke_api_key_by, send_message_in,
    set_member_role_in, withdraw_listing_by, withdraw_track_by, IssueInvite, LogIn,
    ONLY_ADMIN_DECIDES,
};
use babangida::application::query::FeedQuery;
use babangida::application::{ApplicationError, InviterIssuanceState};
use babangida::domain::auth::{session_ttl, AuthError, PasswordHash, Session, SessionToken};
use babangida::domain::community::{
    CommunityError, Group, GroupKind, GroupName, GroupSlug, MembershipRole,
};
use babangida::domain::content::PostBody;
use babangida::domain::identity::{
    Handle, InviteCode, InviteError, InviteQuota, User, UserId, UserRole, VerifiedStatus,
};
use babangida::domain::marketplace::{
    ListingDraft, ListingTitle, MarketplaceError, Price,
};
use babangida::domain::messaging::{MessageBody, MessagingError};
use babangida::domain::music::{AudioRef, MusicError, TrackDraft, TrackTitle};
use babangida::domain::openapi::{ApiKeyHash, ApiKeyLabel, ApiKeyToken, OpenApiError};
use babangida::domain::social::{DisplayName, Subculture};
use babangida::domain::verification::{RequestStatus, VerificationError};
use babangida::domain::RepositoryError;
use babangida::shared::id::Id;
use babangida::shared::time::{Duration, Timestamp};

fn uid() -> UserId {
    Id::generate()
}

fn user(role: UserRole, verified: bool) -> User {
    let mut u = User::register(uid(), Handle::parse("mc_test").unwrap(), role, Timestamp::now());
    if verified {
        u.verify();
    }
    u
}

fn code() -> InviteCode {
    InviteCode::parse("ABCD1234").unwrap()
}

fn group(kind: GroupKind, owner: UserId) -> Group {
    Group::found(
        Id::generate(),
        GroupSlug::parse("podval").unwrap(),
        GroupName::parse("Подвал").unwrap(),
        kind,
        owner,
        Timestamp::now(),
    )
    .0
}

#[test]
fn use_cases_keep_their_ports() {
    let uc = IssueInvite::new(1u8, 2u16, 3u32);
    assert_eq!((uc.tx_factory, uc.clock, uc.codes), (1, 2, 3));
    let login = LogIn::new('u', 'r', 's', 'h', 'f', 'c');
    assert_eq!(login.tokens, 'f');
    assert_eq!(FeedQuery::new("feed").feed, "feed");
}

#[test]
fn missing_entities_are_not_found() {
    assert_eq!(require_found(Some(7), "user"), Ok(7));
    assert_eq!(require_found::<u8>(None, "inviter"), Err(ApplicationError::NotFound("inviter")));
    assert_eq!(
        credentials_found::<u8>(None),
        Err(ApplicationError::Auth(AuthError::InvalidCredentials))
    );
}

#[test]
fn only_an_admin_decides() {
    assert_eq!(
        require_admin(&user(UserRole::Member, true), ONLY_ADMIN_DECIDES),
        Err(ApplicationError::Forbidden("рассматривать заявки может только админ"))
    );
    assert_eq!(require_admin(&user(UserRole::Admin, false), ONLY_ADMIN_DECIDES), Ok(()));
}

#[test]
fn issuing_goes_through_the_domain_rule() {
    let now = Timestamp::now();
    let inviter = uid();
    let fresh = InviterIssuanceState { quota: InviteQuota::Limited(2), active_count: 1, last_issued_at: None };
    let (invite, event) = issue_invite_from(fresh, Id::generate(), code(), inviter, now).unwrap();
    assert!(invite.is_active());
    assert_eq!(event.inviter, inviter);

    let full = InviterIssuanceState { quota: InviteQuota::Limited(2), active_count: 2, last_issued_at: None };
    assert_eq!(
        issue_invite_from(full, Id::generate(), code(), inviter, now).unwrap_err(),
        ApplicationError::Invite(InviteError::QuotaExceeded { active: 2, limit: 2 })
    );

    let recent = InviterIssuanceState {
        quota: InviteQuota::Limited(2),
        active_count: 0,
        last_issued_at: Some(now + Duration::hours(-2)),
    };
    assert_eq!(
        issue_invite_from(recent, Id::generate(), code(), inviter, now).unwrap_err(),
        ApplicationError::Invite(InviteError::CooldownActive { retry_after: Duration::hours(10) })
    );
}

#[test]
fn accepting_twice_or_ones_own_is_refused() {
    let now = Timestamp::now();
    let inviter = uid();
    let state = InviterIssuanceState { quota: InviteQuota::Unlimited, active_count: 0, last_issued_at: None };
    let (invite, _) = issue_invite_from(state, Id::generate(), code(), inviter, now).unwrap();
    assert_eq!(
        accept_invite_from(invite.clone(), inviter, now).unwrap_err(),
        ApplicationError::Invite(InviteError::SelfAccept)
    );
    let (accepted, event) = accept_invite_from(invite, uid(), now).unwrap();
    assert!(!accepted.is_active());
    assert_eq!(event.inviter, inviter);
    assert_eq!(
        accept_invite_from(accepted, uid(), now).unwrap_err(),
        ApplicationError::Invite(InviteError::NotActive)
    );
}

#[test]
fn a_new_member_is_a_casual_member_with_a_credential() {
    let id = uid();
    let now = Timestamp::now();
    let (u, profile, credential) = register_member(
        id,
        Handle::parse("newcomer").unwrap(),
        DisplayName::parse("New Comer").unwrap(),
        Subculture::Underground,
        PasswordHash::from_storage("phc".to_owned()),
        now,
    );
    assert_eq!(u.role(), UserRole::Member);
    assert_eq!(u.verified(), VerifiedStatus::Casual);
    assert_eq!(profile.user_id(), id);
    assert_eq!(credential.user(), id);
    assert_eq!(credential.hash().as_str(), "phc");
}

#[test]
fn posting_into_a_public_page_needs_a_moderator() {
    let owner = uid();
    let member = uid();
    let (g, _) = join_group_in(group(GroupKind::Public, owner), member, Timestamp::now()).unwrap();
    let body = || PostBody::parse("йоу").unwrap();
    assert_eq!(
        post_to_group_in(&g, Id::generate(), member, body(), Timestamp::now()).unwrap_err(),
        ApplicationError::Community(CommunityError::NotPermitted)
    );
    let post = post_to_group_in(&g, Id::generate(), owner, body(), Timestamp::now()).unwrap();
    assert_eq!(post.author(), owner);
}

#[test]
fn membership_decisions_keep_an_owner() {
    let owner = uid();
    let heir = uid();
    let now = Timestamp::now();
    assert_eq!(
        join_group_in(group(GroupKind::Closed, owner), heir, now).unwrap_err(),
        ApplicationError::Community(CommunityError::JoinNotAllowed)
    );
    assert_eq!(
        leave_group_in(group(GroupKind::Closed, owner), owner, now).unwrap_err(),
        ApplicationError::Community(CommunityError::SoleOwner)
    );
    let (g, _) = join_group_in(group(GroupKind::Public, owner), heir, now).unwrap();
    let (g, event) = set_member_role_in(g, owner, heir, MembershipRole::Owner, now).unwrap();
    assert_eq!(event.old_role, MembershipRole::Member);
    let (g, _) = leave_group_in(g, owner, now).unwrap();
    assert_eq!(g.role_of(heir), Some(MembershipRole::Owner));
    assert_eq!(g.role_of(owner), None);
}

#[test]
fn messaging_decisions() {
    let me = uid();
    let you = uid();
    let now = Timestamp::now();
    assert_eq!(
        open_conversation_for(Id::generate(), me, me, now).unwrap_err(),
        ApplicationError::Messaging(MessagingError::SelfConversation)
    );
    let conv = open_conversation_for(Id::generate(), me, you, now).unwrap();
    let (message, event) = send_message_in(&conv, you, MessageBody::parse("здарова").unwrap(), Id::generate(), now).unwrap();
    assert_eq!(message.author(), you);
    assert_eq!(event.conversation, conv.id());
    assert_eq!(
        send_message_in(&conv, uid(), MessageBody::parse("вброс").unwrap(), Id::generate(), now).unwrap_err(),
        ApplicationError::Messaging(MessagingError::NotParticipant)
    );
}

#[test]
fn login_issues_a_session_only_on_a_match() {
    let now = Timestamp::now();
    let token = || SessionToken::parse(&"a".repeat(40)).unwrap();
    assert_eq!(
        log_in_session(false, Id::generate(), token(), uid(), now).err(),
        Some(ApplicationError::Auth(AuthError::InvalidCredentials))
    );
    let (session, auth) = log_in_session(true, Id::generate(), token(), uid(), now).ok().unwrap();
    assert_eq!(auth.expires_at, now + session_ttl());
    assert_eq!(session.expires_at(), auth.expires_at);
    assert_eq!(auth.token.as_str(), "a".repeat(40));
}

#[test]
fn the_password_is_decided_before_any_token() {
    assert_eq!(password_checked(true), Ok(()));
    assert_eq!(password_checked(false), Err(ApplicationError::Auth(AuthError::InvalidCredentials)));
}

#[test]
fn authentication_needs_a_live_session_and_its_user() {
    let now = Timestamp::now();
    let owner = uid();
    let (session, _) = Session::issue(Id::generate(), SessionToken::parse(&"a".repeat(40)).unwrap(), owner, now, session_ttl());
    let unauth = ApplicationError::Auth(AuthError::Unauthenticated);
    assert_eq!(authenticate_session(Some(session.clone()), now), Ok(owner));
    assert_eq!(authenticate_session(Some(session), now + session_ttl()), Err(unauth.clone()));
    assert_eq!(authenticate_session(None, now), Err(unauth.clone()));
    assert_eq!(authenticated_user(None).err(), Some(unauth));
    let u = user(UserRole::Member, true);
    let who = authenticated_user(Some(u.clone())).ok().unwrap();
    assert_eq!(who.user, u.id());
    assert_eq!(who.handle.as_str(), "mc_test");
    assert_eq!(who.verified, VerifiedStatus::Verified);
}

#[test]
fn marketplace_decisions() {
    let draft = || ListingDraft {
        title: ListingTitle::parse("MPC 2000XL").unwrap(),
        price: Price::parse(45000).unwrap(),
        description: None,
    };
    let now = Timestamp::now();
    assert_eq!(
        list_for(&user(UserRole::Member, false), Id::generate(), draft(), now).unwrap_err(),
        ApplicationError::Marketplace(MarketplaceError::NotVerified)
    );
    let seller = user(UserRole::Member, true);
    let listing = list_for(&seller, Id::generate(), draft(), now).unwrap();
    assert_eq!(
        mark_sold_by(listing.clone(), uid()).unwrap_err(),
        ApplicationError::Marketplace(MarketplaceError::NotSeller)
    );
    let (withdrawn, _) = withdraw_listing_by(listing, seller.id()).unwrap();
    assert_eq!(
        mark_sold_by(withdrawn, seller.id()).unwrap_err(),
        ApplicationError::Marketplace(MarketplaceError::NotActive)
    );
}

#[test]
fn verification_decisions() {
    let now = Timestamp::now();
    assert_eq!(
        check_requester(&user(UserRole::Member, true)),
        Err(ApplicationError::Conflict("юзер уже верифицирован"))
    );
    assert_eq!(check_requester(&user(UserRole::Member, false)), Ok(()));
    assert_eq!(
        open_request_unless_pending(true, Id::generate(), uid(), None, now).err(),
        Some(ApplicationError::Conflict("заявка уже на рассмотрении"))
    );
    let request = open_request_unless_pending(false, Id::generate(), uid(), None, now).ok().unwrap();
    assert_eq!(request.status(), RequestStatus::Pending);
    let admin = uid();
    let (approved, event) = approve_request(request.clone(), admin, None, now).unwrap();
    assert_eq!(approved.status(), RequestStatus::Approved);
    assert_eq!(event.by, admin);
    assert_eq!(
        reject_request(approved, admin, None, now).unwrap_err(),
        ApplicationError::Verification(VerificationError::AlreadyDecided)
    );
    let (rejected, _) = reject_request(request, admin, None, now).unwrap();
    assert_eq!(rejected.status(), RequestStatus::Rejected);
}

#[test]
fn music_decisions() {
    let draft = || TrackDraft {
        title: TrackTitle::parse("Подвал").unwrap(),
        audio: AudioRef::parse("https://audio.example/t.mp3").unwrap(),
        genre: None,
    };
    let now = Timestamp::now();
    assert_eq!(
        release_for(&user(UserRole::Member, false), Id::generate(), draft(), now).unwrap_err(),
        ApplicationError::Music(MusicError::NotVerified)
    );
    let artist = user(UserRole::Member, true);
    let track = release_for(&artist, Id::generate(), draft(), now).unwrap();
    let (withdrawn, _) = withdraw_track_by(track, artist.id()).unwrap();
    assert_eq!(
        withdraw_track_by(withdrawn, artist.id()).unwrap_err(),
        ApplicationError::Music(MusicError::NotPublished)
    );
}

#[test]
fn api_key_decisions() {
    let now = Timestamp::now();
    let label = || ApiKeyLabel::parse("ci-bot").unwrap();
    let token = || ApiKeyToken::parse("bbg_0123456789abcd").unwrap();
    let hash = || ApiKeyHash::from_storage("deadbeef".to_owned());
    assert_eq!(
        issue_api_key_for(&user(UserRole::Member, false), Id::generate(), label(), token(), hash(), now).err(),
        Some(ApplicationError::OpenApi(OpenApiError::NotVerified))
    );
    let owner = user(UserRole::Member, true);
    let issued = issue_api_key_for(&owner, Id::generate(), label(), token(), hash(), now).ok().unwrap();
    assert_eq!(issued.token.as_str(), "bbg_0123456789abcd");
    assert_eq!(api_key_owner(Some(issued.key.clone())), Ok(owner.id()));
    let (revoked, _) = revoke_api_key_by(issued.key, owner.id()).ok().unwrap();
    assert_eq!(api_key_owner(Some(revoked.clone())), Err(ApplicationError::Auth(AuthError::Unauthenticated)));
    assert_eq!(api_key_owner(None), Err(ApplicationError::Auth(AuthError::Unauthenticated)));
    assert_eq!(
        revoke_api_key_by(revoked, owner.id()).err(),
        Some(ApplicationError::OpenApi(OpenApiError::AlreadyRevoked))
    );
}

#[test]
fn domain_errors_convert_into_the_application_error() {
    assert_eq!(ApplicationError::from(RepositoryError::Conflict), ApplicationError::Repository(RepositoryError::Conflict));
    assert_eq!(
        ApplicationError::from(CommunityError::SoleOwner),
        ApplicationError::Community(CommunityError::SoleOwner)
    );
}
