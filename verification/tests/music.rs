use babangida::domain::identity::{UserId, VerifiedStatus};
use babangida::domain::music::{
    AudioRef, AudioRefError, Genre, MusicError, Track, TrackDraft, TrackStatus, TrackTitle,
    TrackTitleError,
};
use babangida::shared::id::Id;
use babangida::shared::time::Timestamp;

fn draft() -> TrackDraft {
    TrackDraft {
        title: TrackTitle::parse("Подвал").unwrap(),
        audio: AudioRef::parse("https://audio.example/track.mp3").unwrap(),
        genre: Some(Genre::parse("boom bap").unwrap()),
    }
}

fn published(uploader: UserId) -> Track {
    Track::release(Id::generate(), uploader, VerifiedStatus::Verified, draft(), Timestamp::now())
        .expect("a verified artist releases")
        .0
}

#[test]
fn title_and_audio_validate() {
    assert_eq!(TrackTitle::parse("  "), Err(TrackTitleError::Empty));
    assert!(matches!(TrackTitle::parse(&"x".repeat(201)), Err(TrackTitleError::TooLong { .. })));
    assert_eq!(AudioRef::parse(""), Err(AudioRefError::Empty));
    assert_eq!(AudioRef::parse("ftp://host.x/a"), Err(AudioRefError::NotHttp));
    assert_eq!(AudioRef::parse("https://"), Err(AudioRefError::Malformed));
    assert_eq!(AudioRef::parse("https://no spaces.x/a"), Err(AudioRefError::Malformed));
    assert_eq!(AudioRef::parse("https://host.example/a.mp3").unwrap().as_str(), "https://host.example/a.mp3");
}

#[test]
fn casual_cannot_release() {
    let err = Track::release(Id::generate(), Id::generate(), VerifiedStatus::Casual, draft(), Timestamp::now())
        .unwrap_err();
    assert_eq!(err, MusicError::NotVerified);
}

#[test]
fn verified_releases_published() {
    let uploader = Id::generate();
    let (track, event) = Track::release(Id::generate(), uploader, VerifiedStatus::Verified, draft(), Timestamp::now()).unwrap();
    assert!(track.status().is_published());
    assert_eq!(track.uploader(), uploader);
    assert_eq!(event.uploader, uploader);
}

#[test]
fn only_uploader_withdraws() {
    let uploader = Id::generate();
    let mut track = published(uploader);
    assert_eq!(track.withdraw(Id::generate()).unwrap_err(), MusicError::NotUploader);
    assert!(track.withdraw(uploader).is_ok());
    assert_eq!(track.status(), TrackStatus::Withdrawn);
}

#[test]
fn cannot_withdraw_twice() {
    let uploader = Id::generate();
    let mut track = published(uploader);
    track.withdraw(uploader).unwrap();
    assert_eq!(track.withdraw(uploader).unwrap_err(), MusicError::NotPublished);
}
