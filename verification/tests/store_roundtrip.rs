use babangida::domain::content::{Post, PostBody};
use babangida::domain::identity::{UserId, VerifiedStatus};
use babangida::domain::marketplace::{Listing, ListingDescription, ListingDraft, ListingTitle, Price};
use babangida::domain::messaging::Conversation;
use babangida::domain::music::{AudioRef, Genre, Track, TrackDraft, TrackTitle};
use babangida::domain::openapi::{ApiKey, ApiKeyHash, ApiKeyLabel};
use babangida::domain::verification::{DecisionReason, RequestNote, VerificationRequest};
use babangida::infrastructure::records::content::row_to_post;
use babangida::infrastructure::records::marketplace::reconstitute_listing;
use babangida::infrastructure::records::messaging::row_to_conversation;
use babangida::infrastructure::records::music::reconstitute_track;
use babangida::infrastructure::records::openapi::reconstitute_key;
use babangida::infrastructure::records::verification::reconstitute_request;
use babangida::shared::id::Id;
use babangida::shared::time::{Duration, Timestamp};

#[test]
fn a_stored_post_reads_back() {
    let post = Post::create(Id::generate(), Id::generate(), PostBody::parse("  йоу ").unwrap(), Timestamp::now());
    let row = row_to_post(post.id().as_uuid(), post.author().as_uuid(), post.body().as_str().to_owned(), post.created_at());
    assert_eq!(row, Ok(post));
}

#[test]
fn a_stored_conversation_reads_back() {
    let a: UserId = Id::generate();
    let b: UserId = Id::generate();
    let (c, _) = Conversation::open(Id::generate(), b, a, Timestamp::now()).unwrap();
    let (lo, hi) = c.participants();
    let row = row_to_conversation(c.id().as_uuid(), lo.as_uuid(), hi.as_uuid(), c.opened_at());
    assert_eq!(row, Ok(c));
}

#[test]
fn a_stored_listing_reads_back() {
    let seller: UserId = Id::generate();
    let draft = ListingDraft {
        title: ListingTitle::parse(" MPC 2000 ").unwrap(),
        price: Price::parse(15_000).unwrap(),
        description: Some(ListingDescription::parse("почти новый").unwrap()),
    };
    let (mut listing, _) = Listing::list(Id::generate(), seller, VerifiedStatus::Verified, draft, Timestamp::now()).unwrap();
    listing.mark_sold(seller).unwrap();
    let back = reconstitute_listing(
        listing.id().as_uuid(),
        listing.seller().as_uuid(),
        listing.title().as_str().to_owned(),
        listing.price().rubles() as i64,
        listing.description().map(|d| d.as_str().to_owned()),
        listing.status().as_str().to_owned(),
        listing.created_at(),
    )
    .unwrap();
    assert_eq!(back.id(), listing.id());
    assert_eq!(back.seller(), listing.seller());
    assert_eq!(back.title().as_str(), "MPC 2000");
    assert_eq!(back.price().rubles(), 15_000);
    assert_eq!(back.description().map(|d| d.as_str()), Some("почти новый"));
    assert_eq!(back.status(), listing.status());
    assert_eq!(back.created_at(), listing.created_at());
}

#[test]
fn a_stored_track_reads_back() {
    let artist: UserId = Id::generate();
    let draft = TrackDraft {
        title: TrackTitle::parse("Подвал").unwrap(),
        audio: AudioRef::parse(" https://audio.example/p.mp3 ").unwrap(),
        genre: Some(Genre::parse("boom bap").unwrap()),
    };
    let (mut track, _) = Track::release(Id::generate(), artist, VerifiedStatus::Verified, draft, Timestamp::now()).unwrap();
    track.withdraw(artist).unwrap();
    let back = reconstitute_track(
        track.id().as_uuid(),
        track.uploader().as_uuid(),
        track.title().as_str().to_owned(),
        track.audio().as_str().to_owned(),
        track.genre().map(|g| g.as_str().to_owned()),
        track.status().as_str().to_owned(),
        track.created_at(),
    )
    .unwrap();
    assert_eq!(back.id(), track.id());
    assert_eq!(back.uploader(), track.uploader());
    assert_eq!(back.title().as_str(), "Подвал");
    assert_eq!(back.audio().as_str(), "https://audio.example/p.mp3");
    assert_eq!(back.genre().map(|g| g.as_str()), Some("boom bap"));
    assert_eq!(back.status(), track.status());
    assert_eq!(back.created_at(), track.created_at());
}

#[test]
fn a_stored_key_reads_back() {
    let owner: UserId = Id::generate();
    let (mut key, _) = ApiKey::issue(
        Id::generate(),
        owner,
        VerifiedStatus::Verified,
        ApiKeyLabel::parse(" ci ").unwrap(),
        ApiKeyHash::from_storage("deadbeef".to_owned()),
        Timestamp::now(),
    )
    .unwrap();
    key.revoke(owner).unwrap();
    let back: ApiKey = reconstitute_key(
        key.id().as_uuid(),
        key.owner().as_uuid(),
        key.label().as_str().to_owned(),
        key.hash().as_str().to_owned(),
        key.status().as_str().to_owned(),
        key.created_at(),
    )
    .ok()
    .unwrap();
    assert_eq!(back.id(), key.id());
    assert_eq!(back.owner(), key.owner());
    assert_eq!(back.label().as_str(), "ci");
    assert_eq!(back.hash().as_str(), "deadbeef");
    assert_eq!(back.status(), key.status());
    assert_eq!(back.created_at(), key.created_at());
}

#[test]
fn a_stored_request_reads_back() {
    let now = Timestamp::now();
    let (mut request, _) = VerificationRequest::open(Id::generate(), Id::generate(), Some(RequestNote::parse("пруфы").unwrap()), now);
    request.approve(Id::generate(), Some(DecisionReason::parse("ок").unwrap()), now + Duration::hours(1)).unwrap();
    let back = reconstitute_request(
        request.id().as_uuid(),
        request.requester().as_uuid(),
        request.status().as_str().to_owned(),
        request.note().map(|n| n.as_str().to_owned()),
        request.decided_by().map(|u| u.as_uuid()),
        request.decision_reason().map(|r| r.as_str().to_owned()),
        request.created_at(),
        request.decided_at(),
    );
    assert_eq!(back, Ok(request));
}
