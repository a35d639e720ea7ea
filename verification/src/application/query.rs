//! The query side: read models shaped for the screens, apart from the
//! aggregates that are written. The views are assembled by the store straight
//! from its rows, without rebuilding aggregates.

use vstd::prelude::*;

use crate::domain::community::GroupId;
use crate::domain::content::PostId;
use crate::domain::identity::UserId;
use crate::domain::marketplace::ListingId;
use crate::domain::messaging::{ConversationId, MessageId};
use crate::domain::music::TrackId;
use crate::domain::verification::VerificationRequestId;
use crate::shared::time::Timestamp;

verus! {

/// An item of the feed, for the screen. The `group_*` fields are set where the
/// post was published into a community: posts of communities are in the
/// common feed.
#[derive(Debug, Clone)]
pub struct FeedItemView {
    pub post_id: PostId,
    pub author: UserId,
    pub author_handle: String,
    pub body: String,
    pub created_at: Timestamp,
    pub group_slug: Option<String>,
    pub group_name: Option<String>,
}

/// A profile, for the screen.
#[derive(Debug, Clone)]
pub struct ProfileView {
    pub user_id: UserId,
    pub handle: String,
    pub display_name: String,
    pub subculture: String,
    pub bio: Option<String>,
    pub verified: bool,
}

/// A conversation in the list of one's conversations.
#[derive(Debug, Clone)]
pub struct ConversationView {
    pub conversation_id: ConversationId,
    pub counterpart_handle: String,
    pub last_message: String,
    pub last_at: Timestamp,
}

/// A message in a thread.
#[derive(Debug, Clone)]
pub struct MessageView {
    pub message_id: MessageId,
    pub author_handle: String,
    pub body: String,
    pub sent_at: Timestamp,
}

/// A community, for the screen.
#[derive(Debug, Clone)]
pub struct GroupView {
    pub group_id: GroupId,
    pub slug: String,
    pub name: String,
    pub kind: String,
    pub member_count: u32,
}

/// A listing card, for the market and the profile.
#[derive(Debug, Clone)]
pub struct ListingView {
    pub listing_id: ListingId,
    pub seller: UserId,
    pub seller_handle: String,
    pub title: String,
    pub price_rubles: u64,
    pub description: Option<String>,
    pub status: String,
    pub created_at: Timestamp,
}

/// A pending request in the admins' queue.
#[derive(Debug, Clone)]
pub struct VerificationRequestView {
    pub request_id: VerificationRequestId,
    pub requester_handle: String,
    pub note: Option<String>,
    pub created_at: Timestamp,
}

/// The requester's own latest request.
#[derive(Debug, Clone)]
pub struct MyVerificationView {
    pub request_id: VerificationRequestId,
    pub status: String,
    pub decision_reason: Option<String>,
    pub created_at: Timestamp,
    pub decided_at: Option<Timestamp>,
}

/// A track, for the music section and the profile.
#[derive(Debug, Clone)]
pub struct TrackView {
    pub track_id: TrackId,
    pub uploader: UserId,
    pub artist_handle: String,
    pub title: String,
    pub audio_url: String,
    pub genre: Option<String>,
    pub status: String,
    pub created_at: Timestamp,
}

/// The recent feed. `viewer` is the logged-in user (who sees the posts of
/// their closed communities), `None` the anonymous feed (public content only).
pub struct RecentFeed {
    pub viewer: Option<UserId>,
    pub limit: u32,
}

/// A profile by handle.
pub struct ProfileByHandle {
    pub handle: String,
}

/// One's list of conversations.
pub struct InboxOf {
    pub user: UserId,
    pub limit: u32,
}

/// The thread of a conversation, as seen by `viewer`.
pub struct ThreadOf {
    pub conversation: ConversationId,
    pub viewer: UserId,
    pub limit: u32,
}

/// A community by slug.
pub struct GroupBySlug {
    pub slug: String,
}

/// The market's common section (active listings).
pub struct MarketBrowse {
    pub limit: u32,
}

/// A seller's listings, by handle.
pub struct SellerListings {
    pub handle: String,
    pub limit: u32,
}

/// The queue of pending requests.
pub struct PendingVerifications {
    pub limit: u32,
}

/// The requester's latest request.
pub struct MyVerificationOf {
    pub requester: UserId,
}

/// The recent tracks.
pub struct MusicBrowse {
    pub limit: u32,
}

/// An artist's tracks, by handle.
pub struct ArtistTracks {
    pub handle: String,
    pub limit: u32,
}

/// Reading the feed.
pub struct FeedQuery<R> {
    pub feed: R,
}

impl<R> FeedQuery<R> {
    pub fn new(feed: R) -> (r: Self)
        ensures
            r.feed == feed,
    {
        FeedQuery { feed }
    }
}

/// Reading a profile; a missing one is `NotFound("profile")`.
pub struct ProfileQuery<R> {
    pub profiles: R,
}

impl<R> ProfileQuery<R> {
    pub fn new(profiles: R) -> (r: Self)
        ensures
            r.profiles == profiles,
    {
        ProfileQuery { profiles }
    }
}

/// Reading one's conversations.
pub struct InboxQuery<R> {
    pub inbox: R,
}

impl<R> InboxQuery<R> {
    pub fn new(inbox: R) -> (r: Self)
        ensures
            r.inbox == inbox,
    {
        InboxQuery { inbox }
    }
}

/// Reading a thread; the read model shows it to its participants only.
pub struct ThreadQuery<R> {
    pub thread: R,
}

impl<R> ThreadQuery<R> {
    pub fn new(thread: R) -> (r: Self)
        ensures
            r.thread == thread,
    {
        ThreadQuery { thread }
    }
}

/// Reading a community; a missing one is `NotFound("group")`.
pub struct GroupQuery<R> {
    pub groups: R,
}

impl<R> GroupQuery<R> {
    pub fn new(groups: R) -> (r: Self)
        ensures
            r.groups == groups,
    {
        GroupQuery { groups }
    }
}

/// Reading the market.
pub struct MarketQuery<R> {
    pub listings: R,
}

impl<R> MarketQuery<R> {
    pub fn new(listings: R) -> (r: Self)
        ensures
            r.listings == listings,
    {
        MarketQuery { listings }
    }
}

/// Reading a seller's listings.
pub struct SellerListingsQuery<R> {
    pub listings: R,
}

impl<R> SellerListingsQuery<R> {
    pub fn new(listings: R) -> (r: Self)
        ensures
            r.listings == listings,
    {
        SellerListingsQuery { listings }
    }
}

/// Reading the queue of pending requests (for admins).
pub struct PendingVerificationsQuery<R> {
    pub requests: R,
}

impl<R> PendingVerificationsQuery<R> {
    pub fn new(requests: R) -> (r: Self)
        ensures
            r.requests == requests,
    {
        PendingVerificationsQuery { requests }
    }
}

/// Reading one's own latest request.
pub struct MyVerificationQuery<R> {
    pub requests: R,
}

impl<R> MyVerificationQuery<R> {
    pub fn new(requests: R) -> (r: Self)
        ensures
            r.requests == requests,
    {
        MyVerificationQuery { requests }
    }
}

/// Reading the music section.
pub struct MusicQuery<R> {
    pub tracks: R,
}

impl<R> MusicQuery<R> {
    pub fn new(tracks: R) -> (r: Self)
        ensures
            r.tracks == tracks,
    {
        MusicQuery { tracks }
    }
}

/// Reading an artist's tracks.
pub struct ArtistTracksQuery<R> {
    pub tracks: R,
}

impl<R> ArtistTracksQuery<R> {
    pub fn new(tracks: R) -> (r: Self)
        ensures
            r.tracks == tracks,
    {
        ArtistTracksQuery { tracks }
    }
}

} // verus!
