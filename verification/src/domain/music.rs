//! The music context: track releases. Uploading is a privilege of the
//! verified: the check is a domain invariant ([`Track::release`] takes the
//! [`VerifiedStatus`]).
//!
//! Audio is an outside link ([`AudioRef`], a URL): the metadata and a locator
//! are kept, not the bytes.

use vstd::prelude::*;

use crate::domain::identity::{UserId, VerifiedStatus};
use crate::shared::id::{lemma_id_view_injective, Id};
use crate::shared::time::Timestamp;
use crate::text::{
    chars_of, check_text, contains_from, decimal, decimal_seq, first_bad, has_prefix,
    has_whitespace_char, is_ws, lemma_first_bad_all_ok, lemma_first_bad_none,
    lemma_trim_idempotent, no_ws_rule, starts_with, text_fault, trim, trim_end_seq, trim_seq,
    trim_start_seq, view_outcome, TextFault,
};

verus! {

broadcast use lemma_id_view_injective;

/// Title of a track: 1..=200 characters.
#[derive(Debug, PartialEq, Eq)]
pub struct TrackTitle(String);

impl View for TrackTitle {
    type V = Seq<char>;

    closed spec fn view(&self) -> Seq<char> {
        self.0@
    }
}

impl Clone for TrackTitle {
    fn clone(&self) -> (r: Self)
        ensures
            r@ == self@,
    {
        TrackTitle(self.0.clone())
    }
}

/// A breach of the [`TrackTitle`] rules.
#[derive(Debug, Clone, PartialEq, Eq, Structural)]
pub enum TrackTitleError {
    Empty,
    TooLong { len: usize },
}

impl TrackTitle {
    /// Maximum length, in characters.
    pub const MAX_LEN: usize = 200;

    /// What [`TrackTitle::parse`] gives for a text: the trimmed text, or why it is
    /// refused.
    pub open spec fn spec_parse(input: Seq<char>) -> Result<Seq<char>, TrackTitleError> {
        match text_fault(input, 200) {
            Some(TextFault::Empty) => Err(TrackTitleError::Empty),
            Some(TextFault::TooLong(len)) => Err(TrackTitleError::TooLong { len }),
            None => Ok(trim_seq(input)),
        }
    }

    /// Parse: trimmed, 1..=`MAX_LEN` characters.
    pub fn parse(input: &str) -> (r: Result<Self, TrackTitleError>)
        ensures
            view_outcome(r) == Self::spec_parse(input@),
    {
        match check_text(input, Self::MAX_LEN) {
            Ok(t) => Ok(TrackTitle(t.to_owned())),
            Err(TextFault::Empty) => Err(TrackTitleError::Empty),
            Err(TextFault::TooLong(len)) => Err(TrackTitleError::TooLong { len }),
        }
    }

    /// The text.
    pub fn as_str(&self) -> (r: &str)
        ensures
            r@ == self@,
    {
        self.0.as_str()
    }
}

/// Audio locator: an outside http(s) link. The domain does not host the bytes;
/// it keeps a checked URL.
#[derive(Debug, PartialEq, Eq)]
pub struct AudioRef(String);

impl View for AudioRef {
    type V = Seq<char>;

    closed spec fn view(&self) -> Seq<char> {
        self.0@
    }
}

impl Clone for AudioRef {
    fn clone(&self) -> (r: Self)
        ensures
            r@ == self@,
    {
        AudioRef(self.0.clone())
    }
}

/// A breach of the [`AudioRef`] rules.
#[derive(Debug, Clone, PartialEq, Eq, Structural)]
pub enum AudioRefError {
    Empty,
    TooLong,
    NotHttp,
    Malformed,
}

impl AudioRef {
    /// Maximum URL length, in characters.
    pub const MAX_LEN: usize = 2048;

    /// The host part of a link: what follows `https://` or `http://`.
    pub open spec fn spec_host(t: Seq<char>) -> Option<Seq<char>> {
        if starts_with(t, "https://"@) {
            Some(t.skip(8))
        } else if starts_with(t, "http://"@) {
            Some(t.skip(7))
        } else {
            None
        }
    }

    /// What [`AudioRef::parse`] gives for a text.
    pub open spec fn spec_parse(input: Seq<char>) -> Result<Seq<char>, AudioRefError> {
        let t = trim_seq(input);
        if t.len() == 0 {
            Err(AudioRefError::Empty)
        } else if t.len() > 2048 {
            Err(AudioRefError::TooLong)
        } else if first_bad(t, no_ws_rule(), 0) is Some {
            Err(AudioRefError::Malformed)
        } else {
            match Self::spec_host(t) {
                None => Err(AudioRefError::NotHttp),
                Some(host) => if host.len() == 0 || !host.contains('.') {
                    Err(AudioRefError::Malformed)
                } else {
                    Ok(t)
                },
            }
        }
    }

    /// Parse a link to audio: scheme http or https, a host with at least one
    /// dot, no whitespace.
    pub fn parse(input: &str) -> (r: Result<Self, AudioRefError>)
        ensures
            view_outcome(r) == Self::spec_parse(input@),
    {
        let trimmed = trim(input);
        let chars = chars_of(trimmed);
        if chars.len() == 0 {
            return Err(AudioRefError::Empty);
        }
        if chars.len() > Self::MAX_LEN {
            return Err(AudioRefError::TooLong);
        }
        if has_whitespace_char(&chars) {
            return Err(AudioRefError::Malformed);
        }
        proof {
            reveal_strlit("https://");
            reveal_strlit("http://");
        }
        let start: usize = if has_prefix(&chars, "https://") {
            8
        } else if has_prefix(&chars, "http://") {
            7
        } else {
            return Err(AudioRefError::NotHttp);
        };
        if start == chars.len() || !contains_from(&chars, start, '.') {
            return Err(AudioRefError::Malformed);
        }
        Ok(AudioRef(trimmed.to_owned()))
    }

    /// The link text.
    pub fn as_str(&self) -> (r: &str)
        ensures
            r@ == self@,
    {
        self.0.as_str()
    }
}

/// Genre of a track (an optional tag: boom bap, drill, trap...): 1..=60 characters.
#[derive(Debug, PartialEq, Eq)]
pub struct Genre(String);

impl View for Genre {
    type V = Seq<char>;

    closed spec fn view(&self) -> Seq<char> {
        self.0@
    }
}

impl Clone for Genre {
    fn clone(&self) -> (r: Self)
        ensures
            r@ == self@,
    {
        Genre(self.0.clone())
    }
}

/// A breach of the [`Genre`] rules.
#[derive(Debug, Clone, PartialEq, Eq, Structural)]
pub enum GenreError {
    Empty,
    TooLong { len: usize },
}

impl Genre {
    /// Maximum length, in characters.
    pub const MAX_LEN: usize = 60;

    /// What [`Genre::parse`] gives for a text: the trimmed text, or why it is
    /// refused.
    pub open spec fn spec_parse(input: Seq<char>) -> Result<Seq<char>, GenreError> {
        match text_fault(input, 60) {
            Some(TextFault::Empty) => Err(GenreError::Empty),
            Some(TextFault::TooLong(len)) => Err(GenreError::TooLong { len }),
            None => Ok(trim_seq(input)),
        }
    }

    /// Parse: trimmed, 1..=`MAX_LEN` characters.
    pub fn parse(input: &str) -> (r: Result<Self, GenreError>)
        ensures
            view_outcome(r) == Self::spec_parse(input@),
    {
        match check_text(input, Self::MAX_LEN) {
            Ok(t) => Ok(Genre(t.to_owned())),
            Err(TextFault::Empty) => Err(GenreError::Empty),
            Err(TextFault::TooLong(len)) => Err(GenreError::TooLong { len }),
        }
    }

    /// The text.
    pub fn as_str(&self) -> (r: &str)
        ensures
            r@ == self@,
    {
        self.0.as_str()
    }
}

/// A track draft: what the artist sets (no id, moment or status).
#[derive(Debug, Clone)]
pub struct TrackDraft {
    pub title: TrackTitle,
    pub audio: AudioRef,
    pub genre: Option<Genre>,
}

/// The view of an optional genre.
pub open spec fn genre_view(g: Option<Genre>) -> Option<Seq<char>> {
    match g {
        Some(v) => Some(v@),
        None => None,
    }
}

/// Status of a track.
#[derive(Debug, Clone, Copy, PartialEq, Eq, Structural)]
pub enum TrackStatus {
    /// Published: seen in the feed, the section and the profile.
    Published,
    /// Withdrawn by the artist.
    Withdrawn,
}

impl TrackStatus {
    /// Whether it is published (and so may be withdrawn).
    pub fn is_published(self) -> (r: bool)
        ensures
            r == (self is Published),
    {
        match self {
            TrackStatus::Published => true,
            TrackStatus::Withdrawn => false,
        }
    }

    pub open spec fn spec_as_str(self) -> Seq<char> {
        match self {
            TrackStatus::Published => "published"@,
            TrackStatus::Withdrawn => "withdrawn"@,
        }
    }

    /// The canonical text.
    pub fn as_str(self) -> (r: &'static str)
        ensures
            r@ == self.spec_as_str(),
    {
        match self {
            TrackStatus::Published => "published",
            TrackStatus::Withdrawn => "withdrawn",
        }
    }
}

/// Marker of the typed [`TrackId`].
#[derive(Debug, Clone, Copy, PartialEq, Eq, Hash)]
pub struct TrackMarker;

/// Identifier of a track.
pub type TrackId = Id<TrackMarker>;

/// What a track is, in mathematical terms.
pub struct TrackView {
    pub id: TrackId,
    pub uploader: UserId,
    pub title: Seq<char>,
    pub audio: Seq<char>,
    pub genre: Option<Seq<char>>,
    pub status: TrackStatus,
    pub created_at: Timestamp,
}

/// A track: the root of the music aggregate. Released only by a verified
/// artist; only the artist withdraws it.
#[derive(Debug, Clone)]
pub struct Track {
    id: TrackId,
    uploader: UserId,
    title: TrackTitle,
    audio: AudioRef,
    genre: Option<Genre>,
    status: TrackStatus,
    created_at: Timestamp,
}

impl View for Track {
    type V = TrackView;

    closed spec fn view(&self) -> TrackView {
        TrackView {
            id: self.id,
            uploader: self.uploader,
            title: self.title@,
            audio: self.audio@,
            genre: genre_view(self.genre),
            status: self.status,
            created_at: self.created_at,
        }
    }
}

/// Event: a track was released.
#[derive(Debug, Clone)]
pub struct TrackReleased {
    pub track: TrackId,
    pub uploader: UserId,
}

/// Event: a track was withdrawn.
#[derive(Debug, Clone)]
pub struct TrackWithdrawn {
    pub track: TrackId,
}

/// A breach of the music rules.
#[derive(Debug, Clone, PartialEq, Eq, Structural)]
pub enum MusicError {
    /// Only the verified may release.
    NotVerified,
    /// Only the uploader may change a track.
    NotUploader,
    /// The track is already withdrawn.
    NotPublished,
}

/// Why a withdrawal by `actor` is refused, if it is.
pub open spec fn withdraw_error(track: TrackView, actor: UserId) -> Option<MusicError> {
    if actor != track.uploader {
        Some(MusicError::NotUploader)
    } else if !(track.status is Published) {
        Some(MusicError::NotPublished)
    } else {
        None
    }
}

impl Track {
    /// Release a track. The artist must be verified.
    pub fn release(id: TrackId, uploader: UserId, verified: VerifiedStatus, draft: TrackDraft, now: Timestamp) -> (r: Result<(Self, TrackReleased), MusicError>)
        ensures
            match r {
                Ok((track, event)) => {
                    &&& verified is Verified
                    &&& track@ == (TrackView {
                        id,
                        uploader,
                        title: draft.title@,
                        audio: draft.audio@,
                        genre: genre_view(draft.genre),
                        status: TrackStatus::Published,
                        created_at: now,
                    })
                    &&& event.track == id
                    &&& event.uploader == uploader
                },
                Err(e) => verified is Casual && e == MusicError::NotVerified,
            },
    {
        if !verified.is_verified() {
            return Err(MusicError::NotVerified);
        }
        let track = Track {
            id,
            uploader,
            title: draft.title,
            audio: draft.audio,
            genre: draft.genre,
            status: TrackStatus::Published,
            created_at: now,
        };
        let event = TrackReleased { track: id, uploader };
        Ok((track, event))
    }

    /// Withdraw the track (only the artist, only from published).
    pub fn withdraw(&mut self, actor: UserId) -> (r: Result<TrackWithdrawn, MusicError>)
        ensures
            match r {
                Ok(event) => {
                    &&& withdraw_error(old(self)@, actor) is None
                    &&& final(self)@ == (TrackView { status: TrackStatus::Withdrawn, ..old(self)@ })
                    &&& event.track == old(self)@.id
                },
                Err(e) => {
                    &&& withdraw_error(old(self)@, actor) == Some(e)
                    &&& final(self)@ == old(self)@
                },
            },
    {
        if actor != self.uploader {
            return Err(MusicError::NotUploader);
        }
        if !self.status.is_published() {
            return Err(MusicError::NotPublished);
        }
        self.status = TrackStatus::Withdrawn;
        Ok(TrackWithdrawn { track: self.id })
    }

    /// Rebuild the aggregate from storage.
    pub fn reconstitute(id: TrackId, uploader: UserId, title: TrackTitle, audio: AudioRef, genre: Option<Genre>, status: TrackStatus, created_at: Timestamp) -> (r: Self)
        ensures
            r@ == (TrackView {
                id,
                uploader,
                title: title@,
                audio: audio@,
                genre: genre_view(genre),
                status,
                created_at,
            }),
    {
        Track { id, uploader, title, audio, genre, status, created_at }
    }

    pub fn id(&self) -> (r: TrackId)
        ensures
            r == self@.id,
    {
        self.id
    }

    pub fn uploader(&self) -> (r: UserId)
        ensures
            r == self@.uploader,
    {
        self.uploader
    }

    pub fn title(&self) -> (r: &TrackTitle)
        ensures
            r@ == self@.title,
    {
        &self.title
    }

    pub fn audio(&self) -> (r: &AudioRef)
        ensures
            r@ == self@.audio,
    {
        &self.audio
    }

    pub fn genre(&self) -> (r: Option<&Genre>)
        ensures
            match r {
                Some(g) => self@.genre == Some(g@),
                None => self@.genre is None,
            },
    {
        match &self.genre {
            Some(g) => Some(g),
            None => None,
        }
    }

    pub fn status(&self) -> (r: TrackStatus)
        ensures
            r == self@.status,
    {
        self.status
    }

    pub fn created_at(&self) -> (r: Timestamp)
        ensures
            r == self@.created_at,
    {
        self.created_at
    }
}

/// Law: a withdrawn track stays withdrawn; every further withdrawal is
/// refused, whoever asks.
pub proof fn law_withdrawn_track_is_final(track: TrackView, actor: UserId)
    requires
        !(track.status is Published),
    ensures
        withdraw_error(track, actor) is Some,
{
}

/// Law: a parsed track title parses to itself, so that the text that is stored is
/// what loading reads back.
pub proof fn law_track_title_parse_idempotent(input: Seq<char>)
    requires
        TrackTitle::spec_parse(input) is Ok,
    ensures
        TrackTitle::spec_parse(TrackTitle::spec_parse(input)->Ok_0) == TrackTitle::spec_parse(input),
{
    lemma_trim_idempotent(input);
}

/// The link of `scheme` and `host` is accepted as it is, where the text holds
/// no whitespace and the host holds a dot.
proof fn lemma_link_accepted(scheme: Seq<char>, host: Seq<char>)
    requires
        scheme == "http://"@ || scheme == "https://"@,
        host.contains('.'),
        forall|k: int| 0 <= k < host.len() ==> !is_ws(#[trigger] host[k]),
        host.len() + 8 <= 2048,
    ensures
        AudioRef::spec_parse(scheme + host) == Ok::<Seq<char>, AudioRefError>(scheme + host),
{
    reveal_strlit("http://");
    reveal_strlit("https://");
    let t = scheme + host;
    assert forall|k: int| 0 <= k < t.len() implies !is_ws(#[trigger] t[k]) by {
        if k >= scheme.len() {
            assert(t[k] == host[k - scheme.len()]);
        }
    }
    assert(trim_start_seq(t) == t);
    assert(trim_end_seq(t) == t);
    assert(trim_seq(t) == t);
    assert forall|k: int| 0 <= k < t.len() implies #[trigger] (no_ws_rule())(k, t[k]) by {}
    lemma_first_bad_all_ok(t, no_ws_rule(), 0);
    if scheme == "http://"@ {
        assert(t.subrange(0, 8)[4] == ':');
        assert(t.subrange(0, 8) != "https://"@);
        assert(t.subrange(0, 7) =~= "http://"@);
        assert(t.skip(7) =~= host);
    } else {
        assert(t.subrange(0, 8) =~= "https://"@);
        assert(t.skip(8) =~= host);
    }
}

/// Law: a link of the scheme `http` or `https` and a host that holds a dot,
/// with no whitespace anywhere and within the length limit, is accepted as it
/// is, under either scheme.
pub proof fn law_http_links_accepted(host: Seq<char>)
    requires
        host.contains('.'),
        forall|k: int| 0 <= k < host.len() ==> !is_ws(#[trigger] host[k]),
        host.len() + 8 <= 2048,
    ensures
        AudioRef::spec_parse("http://"@ + host) == Ok::<Seq<char>, AudioRefError>("http://"@ + host),
        AudioRef::spec_parse("https://"@ + host) == Ok::<Seq<char>, AudioRefError>(
            "https://"@ + host,
        ),
{
    lemma_link_accepted("http://"@, host);
    lemma_link_accepted("https://"@, host);
}

/// Law: an accepted link is the trimmed input, within the length limit, with
/// no whitespace, and of the scheme `http` or `https`.
pub proof fn law_accepted_links_are_http(input: Seq<char>)
    requires
        AudioRef::spec_parse(input) is Ok,
    ensures
        AudioRef::spec_parse(input)->Ok_0 == trim_seq(input),
        0 < trim_seq(input).len() <= 2048,
        forall|k: int| 0 <= k < trim_seq(input).len() ==> !is_ws(#[trigger] trim_seq(input)[k]),
        starts_with(trim_seq(input), "http://"@) || starts_with(trim_seq(input), "https://"@),
{
    let t = trim_seq(input);
    lemma_first_bad_none(t, no_ws_rule(), 0);
    assert forall|k: int| 0 <= k < t.len() implies !is_ws(#[trigger] t[k]) by {
        assert((no_ws_rule())(k, t[k]));
    }
}

/// Law: a parsed link to audio parses to itself, so that the text that is stored is
/// what loading reads back.
pub proof fn law_audio_ref_parse_idempotent(input: Seq<char>)
    requires
        AudioRef::spec_parse(input) is Ok,
    ensures
        AudioRef::spec_parse(AudioRef::spec_parse(input)->Ok_0) == AudioRef::spec_parse(input),
{
    lemma_trim_idempotent(input);
}

/// Law: a parsed genre parses to itself, so that the text that is stored is
/// what loading reads back.
pub proof fn law_genre_parse_idempotent(input: Seq<char>)
    requires
        Genre::spec_parse(input) is Ok,
    ensures
        Genre::spec_parse(Genre::spec_parse(input)->Ok_0) == Genre::spec_parse(input),
{
    lemma_trim_idempotent(input);
}

impl TrackTitleError {
    /// The text of the error, as a reader sees it.
    pub open spec fn spec_message(self) -> Seq<char> {
        match self {
            TrackTitleError::Empty => "название трека пустое"@,
            TrackTitleError::TooLong { len } => "название трека слишком длинное: "@
                + decimal_seq(len as nat)
                + " символов (максимум 200)"@,
        }
    }

    /// The text of the error, as a reader sees it.
    pub fn message(&self) -> (r: String)
        ensures
            r@ == self.spec_message(),
    {
        match self {
            TrackTitleError::Empty => "название трека пустое".to_owned(),
            TrackTitleError::TooLong { len } => {
                let mut s = "название трека слишком длинное: ".to_owned();
                s.push_str(decimal(*len as u128).as_str());
                s.push_str(" символов (максимум 200)");
                s
            },
        }
    }
}

impl AudioRefError {
    /// The text of the error, as a reader sees it.
    pub open spec fn spec_message(self) -> Seq<char> {
        match self {
            AudioRefError::Empty => "ссылка на аудио пустая"@,
            AudioRefError::TooLong => "ссылка на аудио слишком длинная"@,
            AudioRefError::NotHttp => "ссылка на аудио должна начинаться с http:// или https://"@,
            AudioRefError::Malformed => "ссылка на аудио некорректна"@,
        }
    }

    /// The text of the error, as a reader sees it.
    pub fn message(&self) -> (r: String)
        ensures
            r@ == self.spec_message(),
    {
        match self {
            AudioRefError::Empty => "ссылка на аудио пустая".to_owned(),
            AudioRefError::TooLong => "ссылка на аудио слишком длинная".to_owned(),
            AudioRefError::NotHttp => "ссылка на аудио должна начинаться с http:// или https://".to_owned(),
            AudioRefError::Malformed => "ссылка на аудио некорректна".to_owned(),
        }
    }
}

impl GenreError {
    /// The text of the error, as a reader sees it.
    pub open spec fn spec_message(self) -> Seq<char> {
        match self {
            GenreError::Empty => "жанр пустой"@,
            GenreError::TooLong { len } => "жанр слишком длинный: "@
                + decimal_seq(len as nat)
                + " символов (максимум 60)"@,
        }
    }

    /// The text of the error, as a reader sees it.
    pub fn message(&self) -> (r: String)
        ensures
            r@ == self.spec_message(),
    {
        match self {
            GenreError::Empty => "жанр пустой".to_owned(),
            GenreError::TooLong { len } => {
                let mut s = "жанр слишком длинный: ".to_owned();
                s.push_str(decimal(*len as u128).as_str());
                s.push_str(" символов (максимум 60)");
                s
            },
        }
    }
}

impl MusicError {
    /// The text of the error, as a reader sees it.
    pub open spec fn spec_message(self) -> Seq<char> {
        match self {
            MusicError::NotVerified => "загрузка музыки доступна только верифицированным"@,
            MusicError::NotUploader => "действие доступно только автору трека"@,
            MusicError::NotPublished => "трек уже снят"@,
        }
    }

    /// The text of the error, as a reader sees it.
    pub fn message(&self) -> (r: String)
        ensures
            r@ == self.spec_message(),
    {
        match self {
            MusicError::NotVerified => "загрузка музыки доступна только верифицированным".to_owned(),
            MusicError::NotUploader => "действие доступно только автору трека".to_owned(),
            MusicError::NotPublished => "трек уже снят".to_owned(),
        }
    }
}

} // verus!
