//! The rows of tracks.

use vstd::prelude::*;

use crate::application::query::TrackView as TrackCard;
use crate::domain::music::{
    AudioRef, AudioRefError, Genre, GenreError, Track, TrackStatus, TrackTitle, TrackTitleError,
    TrackView,
};
use crate::domain::RepositoryError;
use crate::infrastructure::records::identity::unavailable_with;
use crate::infrastructure::records::marketplace::opt_view;
use crate::shared::id::{lemma_id_view_injective, lemma_spec_from_uuid, Id};
use crate::shared::time::Timestamp;
use crate::text::str_eq;

verus! {

broadcast use {lemma_id_view_injective, lemma_spec_from_uuid};

/// The message of a corrupt track row.
pub open spec fn corrupt_track_text(what: Seq<char>) -> Seq<char> {
    "повреждённый трек в БД: "@ + what
}

/// A track row is corrupt: `what` says which part.
pub fn corrupt(what: &str) -> (r: RepositoryError)
    ensures
        r matches RepositoryError::Unavailable(m) && m@ == corrupt_track_text(what@),
{
    unavailable_with("повреждённый трек в БД: ", what)
}

/// A stored status, if it is known.
pub open spec fn spec_track_status(raw: Seq<char>) -> Option<TrackStatus> {
    if raw == "published"@ {
        Some(TrackStatus::Published)
    } else if raw == "withdrawn"@ {
        Some(TrackStatus::Withdrawn)
    } else {
        None
    }
}

/// A stored status, or a failure that names the unknown text.
pub fn parse_status(raw: &str) -> (r: Result<TrackStatus, RepositoryError>)
    ensures
        match spec_track_status(raw@) {
            Some(s) => r == Ok::<TrackStatus, RepositoryError>(s),
            None => r matches Err(RepositoryError::Unavailable(m)) && m@ == corrupt_track_text(
                "неизвестный статус "@ + raw@,
            ),
        },
{
    if str_eq(raw, "published") {
        Ok(TrackStatus::Published)
    } else if str_eq(raw, "withdrawn") {
        Ok(TrackStatus::Withdrawn)
    } else {
        let mut what = String::new();
        what.push_str("неизвестный статус ");
        what.push_str(raw);
        Err(corrupt(what.as_str()))
    }
}

/// Which part of a stored track is corrupt, if one is, in the order checked.
pub open spec fn track_fault(title: Seq<char>, audio: Seq<char>, genre: Option<Seq<char>>, status: Seq<char>) -> Option<Seq<char>> {
    if TrackTitle::spec_parse(title) is Err {
        Some("название"@)
    } else if AudioRef::spec_parse(audio) is Err {
        Some("ссылка"@)
    } else if genre matches Some(g) && Genre::spec_parse(g) is Err {
        Some("жанр"@)
    } else if spec_track_status(status) is None {
        Some("неизвестный статус "@ + status)
    } else {
        None
    }
}

/// A track row, rebuilt through the domain's honest reconstitution.
pub fn reconstitute_track(
    id: u128,
    uploader: u128,
    title: String,
    audio: String,
    genre: Option<String>,
    status: String,
    created_at: Timestamp,
) -> (r: Result<Track, RepositoryError>)
    ensures
        match track_fault(title@, audio@, opt_view(genre), status@) {
            Some(what) => r matches Err(RepositoryError::Unavailable(m)) && m@ == corrupt_track_text(what),
            None => r matches Ok(t) && t@ == (TrackView {
                id: Id::spec_from_uuid(id),
                uploader: Id::spec_from_uuid(uploader),
                title: TrackTitle::spec_parse(title@)->Ok_0,
                audio: AudioRef::spec_parse(audio@)->Ok_0,
                genre: match opt_view(genre) {
                    Some(g) => Some(Genre::spec_parse(g)->Ok_0),
                    None => None,
                },
                status: spec_track_status(status@)->0,
                created_at,
            }),
        },
{
    proof {
        reveal_strlit("published");
        reveal_strlit("withdrawn");
    }
    let title = match TrackTitle::parse(title.as_str()) {
        Ok(t) => t,
        Err(_) => return Err(corrupt("название")),
    };
    let audio = match AudioRef::parse(audio.as_str()) {
        Ok(a) => a,
        Err(_) => return Err(corrupt("ссылка")),
    };
    let genre = match genre {
        Some(g) => match Genre::parse(g.as_str()) {
            Ok(v) => Some(v),
            Err(_) => return Err(corrupt("жанр")),
        },
        None => None,
    };
    let status = parse_status(status.as_str())?;
    Ok(Track::reconstitute(Id::from_uuid(id), Id::from_uuid(uploader), title, audio, genre, status, created_at))
}

/// A track card row with the artist's handle.
pub fn row_to_view(
    id: u128,
    uploader: u128,
    artist_handle: String,
    title: String,
    audio_url: String,
    genre: Option<String>,
    status: String,
    created_at: Timestamp,
) -> (r: TrackCard)
    ensures
        r.track_id@ == id,
        r.uploader@ == uploader,
        r.artist_handle@ == artist_handle@,
        r.title@ == title@,
        r.audio_url@ == audio_url@,
        opt_view(r.genre) == opt_view(genre),
        r.status@ == status@,
        r.created_at == created_at,
{
    TrackCard {
        track_id: Id::from_uuid(id),
        uploader: Id::from_uuid(uploader),
        artist_handle,
        title,
        audio_url,
        genre,
        status,
        created_at,
    }
}

/// Law: a status is read back from the text it is stored as.
pub proof fn law_track_status_roundtrip(status: TrackStatus)
    ensures
        spec_track_status(status.spec_as_str()) == Some(status),
{
    reveal_strlit("published");
    reveal_strlit("withdrawn");
    assert("published"@[0] != "withdrawn"@[0]);
}

/// Law: a track is read back from the row it is stored as: its texts were
/// parsed when it was released and parse to themselves, and its status is
/// stored by name, so the row has no fault and reads back as the same track.
pub proof fn law_track_store_roundtrip(t: TrackView)
    requires
        TrackTitle::spec_parse(t.title) == Ok::<Seq<char>, TrackTitleError>(t.title),
        AudioRef::spec_parse(t.audio) == Ok::<Seq<char>, AudioRefError>(t.audio),
        t.genre matches Some(g) ==> Genre::spec_parse(g) == Ok::<Seq<char>, GenreError>(g),
    ensures
        track_fault(t.title, t.audio, t.genre, t.status.spec_as_str()) is None,
        (TrackView {
            id: Id::spec_from_uuid(t.id@),
            uploader: Id::spec_from_uuid(t.uploader@),
            title: TrackTitle::spec_parse(t.title)->Ok_0,
            audio: AudioRef::spec_parse(t.audio)->Ok_0,
            genre: match t.genre {
                Some(g) => Some(Genre::spec_parse(g)->Ok_0),
                None => None,
            },
            status: spec_track_status(t.status.spec_as_str())->0,
            created_at: t.created_at,
        }) == t,
{
    law_track_status_roundtrip(t.status);
}

} // verus!
