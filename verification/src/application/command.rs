//! The command side: the use cases that write, over the domain's ports. Each
//! goes through the domain's invariants; quotas, cooldowns and rights are
//! decided by `domain`, not by the handlers.
//!
//! A use case alternates work at the ports (loading, saving, committing) with
//! decisions. The decisions stand here, each a function from what was loaded
//! to what is written and returned; the edge runs the ports around them.

use vstd::prelude::*;
use vstd::std_specs::convert::FromSpecImpl;

use crate::application::error::ApplicationError;
use crate::application::ports::InviterIssuanceState;
use crate::domain::auth::{
    session_ttl, session_ttl_nanos, AuthError, Credential, CredentialView, Password, PasswordHash,
    Session, SessionId, SessionToken, SessionView,
};
use crate::domain::community::{
    join_error, leave_error, may_post, members_wf, set_role_error, without, CommunityError, Group,
    GroupId, GroupKind, GroupName, GroupSlug, GroupView, MemberJoined, MemberLeft,
    MemberRoleChanged, Membership, MembershipRole, find_user, role_in,
};
use crate::domain::content::{Post, PostBody, PostId, PostView};
use crate::domain::identity::invite::{
    cooldown_blocks, quota_blocks, reported_limit, retry_after_nanos, InviteView,
};
use crate::domain::identity::user::UserView;
use crate::domain::identity::{
    Handle, Invite, InviteAccepted, InviteCode, InviteError, InviteId, InviteIssued, InviteStatus,
    IssuanceContext, User, UserId, UserRole, VerifiedStatus,
};
use crate::domain::marketplace::{
    description_view, status_change_error, Listing, ListingDraft, ListingId, ListingSold,
    ListingStatus, ListingView, ListingWithdrawn, MarketplaceError,
};
use crate::domain::messaging::{
    canonical_pair, Conversation, ConversationId, ConversationView, Message, MessageBody,
    MessageId, MessageSent, MessageView, MessagingError,
};
use crate::domain::music::{
    genre_view, withdraw_error, MusicError, Track, TrackDraft, TrackId, TrackStatus, TrackView,
    TrackWithdrawn,
};
use crate::domain::openapi::{
    revoke_error, ApiKey, ApiKeyHash, ApiKeyId, ApiKeyLabel, ApiKeyRevoked, ApiKeyStatus,
    ApiKeyToken, ApiKeyView, OpenApiError,
};
use crate::domain::social::{DisplayName, Profile, ProfileView, Subculture};
use crate::domain::verification::{
    decided, note_view, reason_view, DecisionReason, RequestNote, RequestStatus,
    VerificationApproved, VerificationError, VerificationRejected, VerificationRequest,
    VerificationRequestId, VerificationRequestView,
};
use crate::shared::time::{timestamp_in_range, Timestamp};

verus! {

broadcast use crate::shared::id::lemma_id_view_injective;

/// Issuing an invite. Atomic: the inviter's row is locked, the state read, the
/// domain decides ([`Invite::issue`]) and the invite is inserted, in one transaction.
pub struct IssueInvite<T, C, F> {
    pub tx_factory: T,
    pub clock: C,
    pub codes: F,
}

impl<T, C, F> IssueInvite<T, C, F> {
    pub fn new(tx_factory: T, clock: C, codes: F) -> (r: Self)
        ensures
            r.tx_factory == tx_factory,
            r.clock == clock,
            r.codes == codes,
    {
        IssueInvite { tx_factory, clock, codes }
    }
}

/// Accepting an invite. A second acceptance racing this one is caught by the
/// store: saving an accepted invite is a conditional update, else `Conflict`.
pub struct AcceptInvite<I, C> {
    pub invites: I,
    pub clock: C,
}

impl<I, C> AcceptInvite<I, C> {
    pub fn new(invites: I, clock: C) -> (r: Self)
        ensures
            r.invites == invites,
            r.clock == clock,
    {
        AcceptInvite { invites, clock }
    }
}

/// Registration by invite. Atomic: the active invite is locked, the user, the
/// profile and the credential are created and the invite is marked accepted,
/// in one transaction. The password is hashed at the edge.
pub struct Register<T, H, C> {
    pub tx_factory: T,
    pub hasher: H,
    pub clock: C,
}

impl<T, H, C> Register<T, H, C> {
    pub fn new(tx_factory: T, hasher: H, clock: C) -> (r: Self)
        ensures
            r.tx_factory == tx_factory,
            r.hasher == hasher,
            r.clock == clock,
    {
        Register { tx_factory, hasher, clock }
    }
}

/// Publishing a post.
pub struct CreatePost<P, C> {
    pub posts: P,
    pub clock: C,
}

impl<P, C> CreatePost<P, C> {
    pub fn new(posts: P, clock: C) -> (r: Self)
        ensures
            r.posts == posts,
            r.clock == clock,
    {
        CreatePost { posts, clock }
    }
}

/// Publishing into a community. Its content flows into the common feed; the
/// right to post is the domain's ([`Group::authorize_post`]).
pub struct PostToGroup<G, P, C> {
    pub groups: G,
    pub group_posts: P,
    pub clock: C,
}

impl<G, P, C> PostToGroup<G, P, C> {
    pub fn new(groups: G, group_posts: P, clock: C) -> (r: Self)
        ensures
            r.groups == groups,
            r.group_posts == group_posts,
            r.clock == clock,
    {
        PostToGroup { groups, group_posts, clock }
    }
}

/// Private messaging: the conversation opens with the first message (find or
/// open), then messages are appended. That the author takes part is checked by
/// the domain ([`Conversation::send`]).
pub struct SendMessage<R, M, C> {
    pub conversations: R,
    pub messages: M,
    pub clock: C,
}

impl<R, M, C> SendMessage<R, M, C> {
    pub fn new(conversations: R, messages: M, clock: C) -> (r: Self)
        ensures
            r.conversations == conversations,
            r.messages == messages,
            r.clock == clock,
    {
        SendMessage { conversations, messages, clock }
    }
}

/// Founding a community. The store keeps slugs unique (a taken one is `Conflict`).
pub struct FoundGroup<G, C> {
    pub groups: G,
    pub clock: C,
}

impl<G, C> FoundGroup<G, C> {
    pub fn new(groups: G, clock: C) -> (r: Self)
        ensures
            r.groups == groups,
            r.clock == clock,
    {
        FoundGroup { groups, clock }
    }
}

/// Joining a community. Atomic: the group is locked while it is read, the
/// domain decides ([`Group::join`]) and it is written.
pub struct JoinGroup<T, C> {
    pub tx_factory: T,
    pub clock: C,
}

impl<T, C> JoinGroup<T, C> {
    pub fn new(tx_factory: T, clock: C) -> (r: Self)
        ensures
            r.tx_factory == tx_factory,
            r.clock == clock,
    {
        JoinGroup { tx_factory, clock }
    }
}

/// Leaving a community. Atomic, so that a community never loses its last owner
/// under concurrent changes ([`Group::leave`]).
pub struct LeaveGroup<T, C> {
    pub tx_factory: T,
    pub clock: C,
}

impl<T, C> LeaveGroup<T, C> {
    pub fn new(tx_factory: T, clock: C) -> (r: Self)
        ensures
            r.tx_factory == tx_factory,
            r.clock == clock,
    {
        LeaveGroup { tx_factory, clock }
    }
}

/// Changing a member's role. Atomic; rights and the last owner are the domain's
/// ([`Group::set_role`]).
pub struct SetMemberRole<T, C> {
    pub tx_factory: T,
    pub clock: C,
}

impl<T, C> SetMemberRole<T, C> {
    pub fn new(tx_factory: T, clock: C) -> (r: Self)
        ensures
            r.tx_factory == tx_factory,
            r.clock == clock,
    {
        SetMemberRole { tx_factory, clock }
    }
}

/// Setting a user's password: hashed at the edge, only the hash is kept.
pub struct EstablishCredential<R, H, C> {
    pub credentials: R,
    pub hasher: H,
    pub clock: C,
}

impl<R, H, C> EstablishCredential<R, H, C> {
    pub fn new(credentials: R, hasher: H, clock: C) -> (r: Self)
        ensures
            r.credentials == credentials,
            r.hasher == hasher,
            r.clock == clock,
    {
        EstablishCredential { credentials, hasher, clock }
    }
}

/// Logging in. An unknown user and a wrong password are not told apart: both
/// are [`AuthError::InvalidCredentials`]. The session lasts [`session_ttl`].
pub struct LogIn<U, R, S, H, F, C> {
    pub users: U,
    pub credentials: R,
    pub sessions: S,
    pub hasher: H,
    pub tokens: F,
    pub clock: C,
}

impl<U, R, S, H, F, C> LogIn<U, R, S, H, F, C> {
    pub fn new(users: U, credentials: R, sessions: S, hasher: H, tokens: F, clock: C) -> (r: Self)
        ensures
            r.users == users,
            r.credentials == credentials,
            r.sessions == sessions,
            r.hasher == hasher,
            r.tokens == tokens,
            r.clock == clock,
    {
        LogIn { users, credentials, sessions, hasher, tokens, clock }
    }
}

/// Logging out. Idempotent: a missing session is no error.
pub struct LogOut<S> {
    pub sessions: S,
}

impl<S> LogOut<S> {
    pub fn new(sessions: S) -> (r: Self)
        ensures
            r.sessions == sessions,
    {
        LogOut { sessions }
    }
}

/// Recognising the current user by a session token. An expired or missing
/// session, like a vanished user, is [`AuthError::Unauthenticated`].
pub struct Authenticate<S, U, C> {
    pub sessions: S,
    pub users: U,
    pub clock: C,
}

impl<S, U, C> Authenticate<S, U, C> {
    pub fn new(sessions: S, users: U, clock: C) -> (r: Self)
        ensures
            r.sessions == sessions,
            r.users == users,
            r.clock == clock,
    {
        Authenticate { sessions, users, clock }
    }
}

/// Listing an item for sale. The seller's verification is read here and the
/// domain decides ([`Listing::list`]).
pub struct CreateListing<U, L, C> {
    pub users: U,
    pub listings: L,
    pub clock: C,
}

impl<U, L, C> CreateListing<U, L, C> {
    pub fn new(users: U, listings: L, clock: C) -> (r: Self)
        ensures
            r.users == users,
            r.listings == listings,
            r.clock == clock,
    {
        CreateListing { users, listings, clock }
    }
}

/// Marking a listing sold: only its seller, only while active.
pub struct MarkListingSold<L> {
    pub listings: L,
}

impl<L> MarkListingSold<L> {
    pub fn new(listings: L) -> (r: Self)
        ensures
            r.listings == listings,
    {
        MarkListingSold { listings }
    }
}

/// Withdrawing a listing: only its seller, only while active.
pub struct WithdrawListing<L> {
    pub listings: L,
}

impl<L> WithdrawListing<L> {
    pub fn new(listings: L) -> (r: Self)
        ensures
            r.listings == listings,
    {
        WithdrawListing { listings }
    }
}

/// Granting verification. Only an admin grants it; the status itself is set by
/// the domain ([`User::verify`]).
pub struct VerifyUser<U> {
    pub users: U,
}

impl<U> VerifyUser<U> {
    pub fn new(users: U) -> (r: Self)
        ensures
            r.users == users,
    {
        VerifyUser { users }
    }
}

/// Filing a verification request. The rules across aggregates live here: one
/// already verified has no need (`Conflict`), and a second open request is
/// refused (`Conflict`).
pub struct RequestVerification<U, R, C> {
    pub users: U,
    pub requests: R,
    pub clock: C,
}

impl<U, R, C> RequestVerification<U, R, C> {
    pub fn new(users: U, requests: R, clock: C) -> (r: Self)
        ensures
            r.users == users,
            r.requests == requests,
            r.clock == clock,
    {
        RequestVerification { users, requests, clock }
    }
}

/// Approving a request. Atomic: the request is locked, becomes `Approved`, and
/// the requester becomes verified, in one transaction. Only an admin decides.
pub struct ApproveVerification<T, C> {
    pub tx_factory: T,
    pub clock: C,
}

impl<T, C> ApproveVerification<T, C> {
    pub fn new(tx_factory: T, clock: C) -> (r: Self)
        ensures
            r.tx_factory == tx_factory,
            r.clock == clock,
    {
        ApproveVerification { tx_factory, clock }
    }
}

/// Rejecting a request, through the same locking transaction as approval; only
/// the request changes.
pub struct RejectVerification<T, C> {
    pub tx_factory: T,
    pub clock: C,
}

impl<T, C> RejectVerification<T, C> {
    pub fn new(tx_factory: T, clock: C) -> (r: Self)
        ensures
            r.tx_factory == tx_factory,
            r.clock == clock,
    {
        RejectVerification { tx_factory, clock }
    }
}

/// Releasing a track. The artist's verification is read here and the domain
/// decides ([`Track::release`]).
pub struct ReleaseTrack<U, T, C> {
    pub users: U,
    pub tracks: T,
    pub clock: C,
}

impl<U, T, C> ReleaseTrack<U, T, C> {
    pub fn new(users: U, tracks: T, clock: C) -> (r: Self)
        ensures
            r.users == users,
            r.tracks == tracks,
            r.clock == clock,
    {
        ReleaseTrack { users, tracks, clock }
    }
}

/// Withdrawing a track: only its uploader, only while published.
pub struct WithdrawTrack<T> {
    pub tracks: T,
}

impl<T> WithdrawTrack<T> {
    pub fn new(tracks: T) -> (r: Self)
        ensures
            r.tracks == tracks,
    {
        WithdrawTrack { tracks }
    }
}

/// Issuing an API key to a verified owner. The secret is made at the edge and
/// hashed; the raw token is handed to the owner once.
pub struct IssueApiKey<U, K, F, H, C> {
    pub users: U,
    pub keys: K,
    pub factory: F,
    pub hasher: H,
    pub clock: C,
}

impl<U, K, F, H, C> IssueApiKey<U, K, F, H, C> {
    pub fn new(users: U, keys: K, factory: F, hasher: H, clock: C) -> (r: Self)
        ensures
            r.users == users,
            r.keys == keys,
            r.factory == factory,
            r.hasher == hasher,
            r.clock == clock,
    {
        IssueApiKey { users, keys, factory, hasher, clock }
    }
}

/// Revoking an API key: only its owner, only while active.
pub struct RevokeApiKey<K> {
    pub keys: K,
}

impl<K> RevokeApiKey<K> {
    pub fn new(keys: K) -> (r: Self)
        ensures
            r.keys == keys,
    {
        RevokeApiKey { keys }
    }
}

/// Recognising the owner of a presented API key: the token is hashed and looked
/// up; an unknown or revoked key is [`AuthError::Unauthenticated`].
pub struct AuthenticateApiKey<K, H> {
    pub keys: K,
    pub hasher: H,
}

impl<K, H> AuthenticateApiKey<K, H> {
    pub fn new(keys: K, hasher: H) -> (r: Self)
        ensures
            r.keys == keys,
            r.hasher == hasher,
    {
        AuthenticateApiKey { keys, hasher }
    }
}

/// Issue an invite on behalf of a user.
pub struct IssueInviteCommand {
    pub inviter: UserId,
}

/// Accept an invite by its code.
pub struct AcceptInviteCommand {
    pub code: InviteCode,
    pub acceptor: UserId,
}

/// Register by an invite: create the user, the profile and the credential, and
/// mark the invite accepted.
pub struct RegisterCommand {
    pub code: InviteCode,
    pub handle: Handle,
    pub display_name: DisplayName,
    pub subculture: Subculture,
    pub password: Password,
}

/// Publish a post.
pub struct CreatePostCommand {
    pub author: UserId,
    pub body: PostBody,
}

/// Publish a post into a community.
pub struct PostToGroupCommand {
    pub author: UserId,
    pub group: GroupId,
    pub body: PostBody,
}

/// Send a private message to `recipient`.
pub struct SendMessageCommand {
    pub author: UserId,
    pub recipient: UserId,
    pub body: MessageBody,
}

/// Found a community; the founder becomes its owner.
pub struct FoundGroupCommand {
    pub founder: UserId,
    pub slug: GroupSlug,
    pub name: GroupName,
    pub kind: GroupKind,
}

/// Join a public page on one's own.
pub struct JoinGroupCommand {
    pub group: GroupId,
    pub user: UserId,
}

/// Leave a community.
pub struct LeaveGroupCommand {
    pub group: GroupId,
    pub user: UserId,
}

/// Change a member's role (owners only).
pub struct SetMemberRoleCommand {
    pub group: GroupId,
    pub actor: UserId,
    pub target: UserId,
    pub role: MembershipRole,
}

/// Set or replace a user's password.
pub struct EstablishCredentialCommand {
    pub user: UserId,
    pub password: Password,
}

/// Log in by handle and password.
pub struct LogInCommand {
    pub handle: Handle,
    pub password: Password,
}

/// What a login gives: the session token (the client keeps it in a cookie)
/// and the moment it expires.
pub struct Authentication {
    pub token: SessionToken,
    pub expires_at: Timestamp,
}

/// Log out: end the session of a token.
pub struct LogOutCommand {
    pub token: SessionToken,
}

/// Recognise the current user by a session token.
pub struct AuthenticateCommand {
    pub token: SessionToken,
}

/// The authenticated current user. `verified` carries the check of privileges.
#[derive(Debug)]
pub struct AuthenticatedUser {
    pub user: UserId,
    pub handle: Handle,
    pub verified: VerifiedStatus,
}

/// List an item for sale.
pub struct CreateListingCommand {
    pub seller: UserId,
    pub draft: ListingDraft,
}

/// Mark a listing sold.
pub struct MarkListingSoldCommand {
    pub listing: ListingId,
    pub actor: UserId,
}

/// Withdraw a listing.
pub struct WithdrawListingCommand {
    pub listing: ListingId,
    pub actor: UserId,
}

/// Verify a user, opening the privileged sections.
pub struct VerifyUserCommand {
    pub actor: UserId,
    pub target: Handle,
}

/// File a request for verification.
pub struct RequestVerificationCommand {
    pub requester: UserId,
    pub note: Option<RequestNote>,
}

/// Approve a verification request (admins only).
pub struct ApproveVerificationCommand {
    pub actor: UserId,
    pub request: VerificationRequestId,
    pub reason: Option<DecisionReason>,
}

/// Reject a verification request (admins only).
pub struct RejectVerificationCommand {
    pub actor: UserId,
    pub request: VerificationRequestId,
    pub reason: Option<DecisionReason>,
}

/// Release a track.
pub struct ReleaseTrackCommand {
    pub uploader: UserId,
    pub draft: TrackDraft,
}

/// Withdraw a track.
pub struct WithdrawTrackCommand {
    pub track: TrackId,
    pub actor: UserId,
}

/// Issue an API key.
pub struct IssueApiKeyCommand {
    pub owner: UserId,
    pub label: ApiKeyLabel,
}

/// A key as issued: the aggregate and the raw token, shown to the owner once.
pub struct IssuedApiKey {
    pub key: ApiKey,
    pub token: ApiKeyToken,
}

/// Revoke an API key.
pub struct RevokeApiKeyCommand {
    pub actor: UserId,
    pub key: ApiKeyId,
}

/// Recognise the owner of a presented API key.
pub struct AuthenticateApiKeyCommand {
    pub token: ApiKeyToken,
}

// ---- the decisions shared by several use cases ----

/// What was found, or `NotFound(what)` where nothing was.
pub fn require_found<T>(found: Option<T>, what: &'static str) -> (r: Result<T, ApplicationError>)
    ensures
        match found {
            Some(v) => r == Ok::<T, ApplicationError>(v),
            None => r == Err::<T, ApplicationError>(ApplicationError::NotFound(what)),
        },
{
    match found {
        Some(v) => Ok(v),
        None => Err(ApplicationError::NotFound(what)),
    }
}

/// Only an admin may go on; anyone else is `Forbidden(why)`.
pub fn require_admin(actor: &User, why: &'static str) -> (r: Result<(), ApplicationError>)
    ensures
        r is Ok <==> actor@.role == UserRole::Admin,
        r is Err ==> r == Err::<(), ApplicationError>(ApplicationError::Forbidden(why)),
{
    if actor.role() != UserRole::Admin {
        Err(ApplicationError::Forbidden(why))
    } else {
        Ok(())
    }
}

// ---- identity ----

/// The issuing context of an inviter whose state was read under its lock.
pub open spec fn issuance_context(state: InviterIssuanceState, now: Timestamp) -> IssuanceContext {
    IssuanceContext {
        quota: state.quota,
        active_count: state.active_count,
        last_issued_at: state.last_issued_at,
        now,
    }
}

/// `e` is the refusal that the issuing rule gives in `ctx`.
pub open spec fn issue_refused(ctx: IssuanceContext, e: InviteError) -> bool {
    match e {
        InviteError::QuotaExceeded { active, limit } => {
            &&& quota_blocks(ctx)
            &&& active == ctx.active_count
            &&& limit == reported_limit(ctx)
        },
        InviteError::CooldownActive { retry_after } => {
            &&& !quota_blocks(ctx)
            &&& cooldown_blocks(ctx)
            &&& retry_after@ == retry_after_nanos(ctx)
        },
        _ => false,
    }
}

/// The decision of [`IssueInvite`]: issue from the inviter's locked state, or
/// the domain's refusal.
pub fn issue_invite_from(
    state: InviterIssuanceState,
    id: InviteId,
    code: InviteCode,
    inviter: UserId,
    now: Timestamp,
) -> (r: Result<(Invite, InviteIssued), ApplicationError>)
    ensures
        match r {
            Ok((invite, event)) => {
                &&& !quota_blocks(issuance_context(state, now))
                &&& !cooldown_blocks(issuance_context(state, now))
                &&& invite@ == (InviteView {
                    id,
                    code: code@,
                    inviter,
                    status: InviteStatus::Active,
                    created_at: now,
                })
                &&& event.invite_id == id
                &&& event.inviter == inviter
                &&& event.code@ == code@
                &&& event.issued_at == now
            },
            Err(ApplicationError::Invite(e)) => issue_refused(issuance_context(state, now), e),
            Err(_) => false,
        },
{
    let ctx = IssuanceContext {
        quota: state.quota,
        active_count: state.active_count,
        last_issued_at: state.last_issued_at,
        now,
    };
    match Invite::issue(id, code, inviter, ctx) {
        Ok(pair) => Ok(pair),
        Err(e) => Err(ApplicationError::from(e)),
    }
}

/// Why `by` may not accept an invite in the state `v`.
pub open spec fn accept_refusal(v: InviteView, by: UserId) -> InviteError {
    if !(v.status is Active) {
        InviteError::NotActive
    } else {
        InviteError::SelfAccept
    }
}

/// The decision of [`AcceptInvite`] (and the last step of [`Register`]): the
/// invite accepted by `acceptor`, or the domain's refusal.
pub fn accept_invite_from(invite: Invite, acceptor: UserId, now: Timestamp) -> (r: Result<
    (Invite, InviteAccepted),
    ApplicationError,
>)
    ensures
        match r {
            Ok((accepted, event)) => {
                &&& invite@.status is Active
                &&& acceptor != invite@.inviter
                &&& accepted@ == (InviteView {
                    status: InviteStatus::Accepted { by: acceptor, at: now },
                    ..invite@
                })
                &&& event.invite_id == invite@.id
                &&& event.code@ == invite@.code
                &&& event.inviter == invite@.inviter
                &&& event.accepted_by == acceptor
                &&& event.accepted_at == now
            },
            Err(e) => {
                &&& !(invite@.status is Active && acceptor != invite@.inviter)
                &&& e == ApplicationError::Invite(accept_refusal(invite@, acceptor))
            },
        },
{
    let mut invite = invite;
    match invite.accept(acceptor, now) {
        Ok(event) => Ok((invite, event)),
        Err(e) => Err(ApplicationError::from(e)),
    }
}

/// The records of a newly registered member: the user (role `Member`, not
/// verified), the profile and the credential.
pub fn register_member(
    id: UserId,
    handle: Handle,
    display_name: DisplayName,
    subculture: Subculture,
    hash: PasswordHash,
    now: Timestamp,
) -> (r: (User, Profile, Credential))
    ensures
        r.0@ == (UserView {
            id,
            handle: handle@,
            role: UserRole::Member,
            verified: VerifiedStatus::Casual,
            created_at: now,
        }),
        r.1@ == (ProfileView { user_id: id, display_name: display_name@, subculture, bio: None }),
        r.2@ == (CredentialView { user: id, hash: hash@, established_at: now }),
{
    let user = User::register(id, handle, UserRole::Member, now);
    let profile = Profile::create(id, display_name, subculture);
    let credential = Credential::establish(id, hash, now);
    (user, profile, credential)
}

// ---- content and communities ----

/// The decision of [`PostToGroup`]: the post, where `author` may post into the
/// community.
pub fn post_to_group_in(group: &Group, id: PostId, author: UserId, body: PostBody, now: Timestamp) -> (r:
    Result<Post, ApplicationError>)
    ensures
        match r {
            Ok(post) => {
                &&& may_post(group@, author)
                &&& post@ == (PostView { id, author, body: body@, created_at: now })
            },
            Err(e) => {
                &&& !may_post(group@, author)
                &&& e == ApplicationError::Community(CommunityError::NotPermitted)
            },
        },
{
    match group.authorize_post(author) {
        Ok(()) => Ok(Post::create(id, author, body, now)),
        Err(e) => Err(ApplicationError::from(e)),
    }
}

/// The decision of [`JoinGroup`] on the locked community.
pub fn join_group_in(group: Group, user: UserId, now: Timestamp) -> (r: Result<
    (Group, MemberJoined),
    ApplicationError,
>)
    ensures
        match r {
            Ok((joined, event)) => {
                &&& join_error(group@, user) is None
                &&& joined@ == (GroupView {
                    members: group@.members.push(Membership { user, role: MembershipRole::Member }),
                    ..group@
                })
                &&& event == (MemberJoined { group: group@.id, user, role: MembershipRole::Member, at: now })
                &&& members_wf(joined@.members)
            },
            Err(e) => join_error(group@, user) matches Some(ce) && e == ApplicationError::Community(ce),
        },
{
    let mut group = group;
    match group.join(user, now) {
        Ok(event) => Ok((group, event)),
        Err(e) => Err(ApplicationError::from(e)),
    }
}

/// The decision of [`LeaveGroup`] on the locked community.
pub fn leave_group_in(group: Group, user: UserId, now: Timestamp) -> (r: Result<
    (Group, MemberLeft),
    ApplicationError,
>)
    ensures
        match r {
            Ok((left, event)) => {
                &&& leave_error(group@, user) is None
                &&& left@ == (GroupView { members: without(group@.members, user), ..group@ })
                &&& event == (MemberLeft { group: group@.id, user, at: now })
                &&& members_wf(left@.members)
            },
            Err(e) => leave_error(group@, user) matches Some(ce) && e == ApplicationError::Community(ce),
        },
{
    let mut group = group;
    match group.leave(user, now) {
        Ok(event) => Ok((group, event)),
        Err(e) => Err(ApplicationError::from(e)),
    }
}

/// The decision of [`SetMemberRole`] on the locked community.
pub fn set_member_role_in(
    group: Group,
    actor: UserId,
    target: UserId,
    role: MembershipRole,
    now: Timestamp,
) -> (r: Result<(Group, MemberRoleChanged), ApplicationError>)
    ensures
        match r {
            Ok((changed, event)) => {
                &&& set_role_error(group@, actor, target, role) is None
                &&& changed@ == (GroupView {
                    members: group@.members.update(
                        find_user(group@.members, target, 0)->0 as int,
                        Membership { user: target, role },
                    ),
                    ..group@
                })
                &&& event == (MemberRoleChanged {
                    group: group@.id,
                    user: target,
                    old_role: role_in(group@.members, target)->0,
                    new_role: role,
                    at: now,
                })
                &&& members_wf(changed@.members)
            },
            Err(e) => set_role_error(group@, actor, target, role) matches Some(ce) && e
                == ApplicationError::Community(ce),
        },
{
    let mut group = group;
    match group.set_role(actor, target, role, now) {
        Ok(event) => Ok((group, event)),
        Err(e) => Err(ApplicationError::from(e)),
    }
}

// ---- messaging ----

/// The conversation that [`SendMessage`] opens where none was found.
pub fn open_conversation_for(id: ConversationId, author: UserId, recipient: UserId, now: Timestamp) -> (r:
    Result<Conversation, ApplicationError>)
    ensures
        match r {
            Ok(conversation) => {
                &&& author != recipient
                &&& conversation@ == (ConversationView {
                    id,
                    lower: canonical_pair(author, recipient).0,
                    higher: canonical_pair(author, recipient).1,
                    opened_at: now,
                })
            },
            Err(e) => author == recipient && e == ApplicationError::Messaging(
                MessagingError::SelfConversation,
            ),
        },
{
    match Conversation::open(id, author, recipient, now) {
        Ok((conversation, _opened)) => Ok(conversation),
        Err(e) => Err(ApplicationError::from(e)),
    }
}

/// The message that [`SendMessage`] appends to the conversation.
pub fn send_message_in(
    conversation: &Conversation,
    author: UserId,
    body: MessageBody,
    id: MessageId,
    now: Timestamp,
) -> (r: Result<(Message, MessageSent), ApplicationError>)
    ensures
        match r {
            Ok((message, event)) => {
                &&& (author == conversation@.lower || author == conversation@.higher)
                &&& message@ == (MessageView {
                    id,
                    conversation: conversation@.id,
                    author,
                    body: body@,
                    sent_at: now,
                })
                &&& event == (MessageSent {
                    message_id: id,
                    conversation: conversation@.id,
                    author,
                    sent_at: now,
                })
            },
            Err(e) => {
                &&& author != conversation@.lower
                &&& author != conversation@.higher
                &&& e == ApplicationError::Messaging(MessagingError::NotParticipant)
            },
        },
{
    match conversation.send(author, body, id, now) {
        Ok(pair) => Ok(pair),
        Err(e) => Err(ApplicationError::from(e)),
    }
}

// ---- authentication ----

/// What was found for a login, or `InvalidCredentials`: an unknown user and a
/// missing credential are not told apart.
pub fn credentials_found<T>(found: Option<T>) -> (r: Result<T, ApplicationError>)
    ensures
        match found {
            Some(v) => r == Ok::<T, ApplicationError>(v),
            None => r == Err::<T, ApplicationError>(ApplicationError::Auth(AuthError::InvalidCredentials)),
        },
{
    match found {
        Some(v) => Ok(v),
        None => Err(ApplicationError::Auth(AuthError::InvalidCredentials)),
    }
}

/// The password check of [`LogIn`]: the login goes on, and a session token is
/// drawn, only where the password matched; a mismatch is
/// `InvalidCredentials`, the same answer as an unknown handle.
pub fn password_checked(password_matches: bool) -> (r: Result<(), ApplicationError>)
    ensures
        r is Ok <==> password_matches,
        !password_matches ==> r == Err::<(), ApplicationError>(ApplicationError::Auth(AuthError::InvalidCredentials)),
{
    if password_matches {
        Ok(())
    } else {
        Err(ApplicationError::Auth(AuthError::InvalidCredentials))
    }
}

/// The decision of [`LogIn`] once the password was checked: a session of
/// [`session_ttl`] for `user`, or `InvalidCredentials` where the password did
/// not match. The session must end inside the supported calendar range.
pub fn log_in_session(
    password_matches: bool,
    id: SessionId,
    token: SessionToken,
    user: UserId,
    now: Timestamp,
) -> (r: Result<(Session, Authentication), ApplicationError>)
    requires
        password_matches ==> timestamp_in_range(now@ + session_ttl_nanos()),
    ensures
        match r {
            Ok((session, auth)) => {
                &&& password_matches
                &&& session@ == (SessionView {
                    id,
                    token: token@,
                    user,
                    issued_at: now,
                    expires_at: auth.expires_at,
                })
                &&& auth.expires_at@ == now@ + session_ttl_nanos()
                &&& auth.token@ == token@
            },
            Err(e) => !password_matches && e == ApplicationError::Auth(AuthError::InvalidCredentials),
        },
{
    if !password_matches {
        return Err(ApplicationError::Auth(AuthError::InvalidCredentials));
    }
    let (session, _issued) = Session::issue(id, token.clone(), user, now, session_ttl());
    let expires_at = session.expires_at();
    Ok((session, Authentication { token, expires_at }))
}

/// The first decision of [`Authenticate`]: the user of a session that exists
/// and has not expired at `now`, else `Unauthenticated`.
pub fn authenticate_session(session: Option<Session>, now: Timestamp) -> (r: Result<UserId, ApplicationError>)
    ensures
        match session {
            Some(s) if now@ < s@.expires_at@ => r == Ok::<UserId, ApplicationError>(s@.user),
            _ => r == Err::<UserId, ApplicationError>(ApplicationError::Auth(AuthError::Unauthenticated)),
        },
{
    match session {
        Some(s) => {
            if s.is_active(now) {
                Ok(s.user())
            } else {
                Err(ApplicationError::Auth(AuthError::Unauthenticated))
            }
        },
        None => Err(ApplicationError::Auth(AuthError::Unauthenticated)),
    }
}

/// The last decision of [`Authenticate`]: the session's user as found, or
/// `Unauthenticated` where the user has vanished.
pub fn authenticated_user(user: Option<User>) -> (r: Result<AuthenticatedUser, ApplicationError>)
    ensures
        match user {
            Some(u) => r matches Ok(a) && a.user == u@.id && a.handle@ == u@.handle && a.verified
                == u@.verified,
            None => r == Err::<AuthenticatedUser, ApplicationError>(
                ApplicationError::Auth(AuthError::Unauthenticated),
            ),
        },
{
    match user {
        Some(u) => Ok(AuthenticatedUser { user: u.id(), handle: u.handle().clone(), verified: u.verified() }),
        None => Err(ApplicationError::Auth(AuthError::Unauthenticated)),
    }
}

// ---- marketplace ----

/// The decision of [`CreateListing`]: the listing of a verified seller.
pub fn list_for(seller: &User, id: ListingId, draft: ListingDraft, now: Timestamp) -> (r: Result<Listing, ApplicationError>)
    ensures
        match r {
            Ok(listing) => {
                &&& seller@.verified is Verified
                &&& listing@ == (ListingView {
                    id,
                    seller: seller@.id,
                    title: draft.title@,
                    price: draft.price,
                    description: description_view(draft.description),
                    status: ListingStatus::Active,
                    created_at: now,
                })
            },
            Err(e) => seller@.verified is Casual && e == ApplicationError::Marketplace(
                MarketplaceError::NotVerified,
            ),
        },
{
    match Listing::list(id, seller.id(), seller.verified(), draft, now) {
        Ok((listing, _posted)) => Ok(listing),
        Err(e) => Err(ApplicationError::from(e)),
    }
}

/// The decision of [`MarkListingSold`].
pub fn mark_sold_by(listing: Listing, actor: UserId) -> (r: Result<(Listing, ListingSold), ApplicationError>)
    ensures
        match r {
            Ok((sold, event)) => {
                &&& status_change_error(listing@, actor) is None
                &&& sold@ == (ListingView { status: ListingStatus::Sold, ..listing@ })
                &&& event.listing == listing@.id
            },
            Err(e) => status_change_error(listing@, actor) matches Some(me) && e
                == ApplicationError::Marketplace(me),
        },
{
    let mut listing = listing;
    match listing.mark_sold(actor) {
        Ok(event) => Ok((listing, event)),
        Err(e) => Err(ApplicationError::from(e)),
    }
}

/// The decision of [`WithdrawListing`].
pub fn withdraw_listing_by(listing: Listing, actor: UserId) -> (r: Result<
    (Listing, ListingWithdrawn),
    ApplicationError,
>)
    ensures
        match r {
            Ok((withdrawn, event)) => {
                &&& status_change_error(listing@, actor) is None
                &&& withdrawn@ == (ListingView { status: ListingStatus::Withdrawn, ..listing@ })
                &&& event.listing == listing@.id
            },
            Err(e) => status_change_error(listing@, actor) matches Some(me) && e
                == ApplicationError::Marketplace(me),
        },
{
    let mut listing = listing;
    match listing.withdraw(actor) {
        Ok(event) => Ok((listing, event)),
        Err(e) => Err(ApplicationError::from(e)),
    }
}

// ---- verification ----

/// The text of the refusal to verify for one who is not an admin.
pub const ONLY_ADMIN_VERIFIES: &'static str = "верифицировать может только админ";

/// The text of the refusal to decide requests for one who is not an admin.
pub const ONLY_ADMIN_DECIDES: &'static str = "рассматривать заявки может только админ";

/// The first decision of [`RequestVerification`]: one already verified has no
/// need of a request.
pub fn check_requester(user: &User) -> (r: Result<(), ApplicationError>)
    ensures
        r is Ok <==> user@.verified is Casual,
        r is Err ==> r == Err::<(), ApplicationError>(ApplicationError::Conflict("юзер уже верифицирован")),
{
    if user.verified().is_verified() {
        Err(ApplicationError::Conflict("юзер уже верифицирован"))
    } else {
        Ok(())
    }
}

/// The last decision of [`RequestVerification`]: a new pending request, unless
/// one is already pending.
pub fn open_request_unless_pending(
    pending: bool,
    id: VerificationRequestId,
    requester: UserId,
    note: Option<RequestNote>,
    now: Timestamp,
) -> (r: Result<VerificationRequest, ApplicationError>)
    ensures
        match r {
            Ok(request) => {
                &&& !pending
                &&& request@ == (VerificationRequestView {
                    id,
                    requester,
                    status: RequestStatus::Pending,
                    note: note_view(note),
                    decided_by: None,
                    decision_reason: None,
                    created_at: now,
                    decided_at: None,
                })
            },
            Err(e) => pending && e == ApplicationError::Conflict("заявка уже на рассмотрении"),
        },
{
    if pending {
        return Err(ApplicationError::Conflict("заявка уже на рассмотрении"));
    }
    let (request, _requested) = VerificationRequest::open(id, requester, note, now);
    Ok(request)
}

/// The decision of [`ApproveVerification`] on the locked request.
pub fn approve_request(
    request: VerificationRequest,
    admin: UserId,
    reason: Option<DecisionReason>,
    now: Timestamp,
) -> (r: Result<(VerificationRequest, VerificationApproved), ApplicationError>)
    ensures
        match r {
            Ok((approved, event)) => {
                &&& request@.status is Pending
                &&& approved@ == decided(request@, RequestStatus::Approved, admin, reason_view(reason), now)
                &&& event.request == request@.id
                &&& event.requester == request@.requester
                &&& event.by == admin
            },
            Err(e) => {
                &&& !(request@.status is Pending)
                &&& e == ApplicationError::Verification(VerificationError::AlreadyDecided)
            },
        },
{
    let mut request = request;
    match request.approve(admin, reason, now) {
        Ok(event) => Ok((request, event)),
        Err(e) => Err(ApplicationError::from(e)),
    }
}

/// The decision of [`RejectVerification`] on the locked request.
pub fn reject_request(
    request: VerificationRequest,
    admin: UserId,
    reason: Option<DecisionReason>,
    now: Timestamp,
) -> (r: Result<(VerificationRequest, VerificationRejected), ApplicationError>)
    ensures
        match r {
            Ok((rejected, event)) => {
                &&& request@.status is Pending
                &&& rejected@ == decided(request@, RequestStatus::Rejected, admin, reason_view(reason), now)
                &&& event.request == request@.id
                &&& event.requester == request@.requester
                &&& event.by == admin
            },
            Err(e) => {
                &&& !(request@.status is Pending)
                &&& e == ApplicationError::Verification(VerificationError::AlreadyDecided)
            },
        },
{
    let mut request = request;
    match request.reject(admin, reason, now) {
        Ok(event) => Ok((request, event)),
        Err(e) => Err(ApplicationError::from(e)),
    }
}

// ---- music ----

/// The decision of [`ReleaseTrack`]: the track of a verified artist.
pub fn release_for(uploader: &User, id: TrackId, draft: TrackDraft, now: Timestamp) -> (r: Result<Track, ApplicationError>)
    ensures
        match r {
            Ok(track) => {
                &&& uploader@.verified is Verified
                &&& track@ == (TrackView {
                    id,
                    uploader: uploader@.id,
                    title: draft.title@,
                    audio: draft.audio@,
                    genre: genre_view(draft.genre),
                    status: TrackStatus::Published,
                    created_at: now,
                })
            },
            Err(e) => uploader@.verified is Casual && e == ApplicationError::Music(MusicError::NotVerified),
        },
{
    match Track::release(id, uploader.id(), uploader.verified(), draft, now) {
        Ok((track, _released)) => Ok(track),
        Err(e) => Err(ApplicationError::from(e)),
    }
}

/// The decision of [`WithdrawTrack`].
pub fn withdraw_track_by(track: Track, actor: UserId) -> (r: Result<(Track, TrackWithdrawn), ApplicationError>)
    ensures
        match r {
            Ok((withdrawn, event)) => {
                &&& withdraw_error(track@, actor) is None
                &&& withdrawn@ == (TrackView { status: TrackStatus::Withdrawn, ..track@ })
                &&& event.track == track@.id
            },
            Err(e) => withdraw_error(track@, actor) matches Some(me) && e == ApplicationError::Music(me),
        },
{
    let mut track = track;
    match track.withdraw(actor) {
        Ok(event) => Ok((track, event)),
        Err(e) => Err(ApplicationError::from(e)),
    }
}

// ---- API keys ----

/// The decision of [`IssueApiKey`]: the key of a verified owner, with the raw
/// token and its hash.
pub fn issue_api_key_for(
    owner: &User,
    id: ApiKeyId,
    label: ApiKeyLabel,
    token: ApiKeyToken,
    hash: ApiKeyHash,
    now: Timestamp,
) -> (r: Result<IssuedApiKey, ApplicationError>)
    ensures
        match r {
            Ok(issued) => {
                &&& owner@.verified is Verified
                &&& issued.key@ == (ApiKeyView {
                    id,
                    owner: owner@.id,
                    label: label@,
                    hash: hash@,
                    status: ApiKeyStatus::Active,
                    created_at: now,
                })
                &&& issued.token@ == token@
            },
            Err(e) => owner@.verified is Casual && e == ApplicationError::OpenApi(OpenApiError::NotVerified),
        },
{
    match ApiKey::issue(id, owner.id(), owner.verified(), label, hash, now) {
        Ok((key, _issued)) => Ok(IssuedApiKey { key, token }),
        Err(e) => Err(ApplicationError::from(e)),
    }
}

/// The decision of [`RevokeApiKey`].
pub fn revoke_api_key_by(key: ApiKey, actor: UserId) -> (r: Result<(ApiKey, ApiKeyRevoked), ApplicationError>)
    ensures
        match r {
            Ok((revoked, event)) => {
                &&& revoke_error(key@, actor) is None
                &&& revoked@ == (ApiKeyView { status: ApiKeyStatus::Revoked, ..key@ })
                &&& event.key == key@.id
            },
            Err(e) => revoke_error(key@, actor) matches Some(oe) && e == ApplicationError::OpenApi(oe),
        },
{
    let mut key = key;
    match key.revoke(actor) {
        Ok(event) => Ok((key, event)),
        Err(e) => Err(ApplicationError::from(e)),
    }
}

/// The decision of [`AuthenticateApiKey`]: the owner of a key found by its
/// hash and still active, else `Unauthenticated`.
pub fn api_key_owner(key: Option<ApiKey>) -> (r: Result<UserId, ApplicationError>)
    ensures
        match key {
            Some(k) if k@.status is Active => r == Ok::<UserId, ApplicationError>(k@.owner),
            _ => r == Err::<UserId, ApplicationError>(ApplicationError::Auth(AuthError::Unauthenticated)),
        },
{
    match key {
        Some(k) => {
            if k.status().is_active() {
                Ok(k.owner())
            } else {
                Err(ApplicationError::Auth(AuthError::Unauthenticated))
            }
        },
        None => Err(ApplicationError::Auth(AuthError::Unauthenticated)),
    }
}

} // verus!
