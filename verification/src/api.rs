//! The decisions of the HTTP edge: which status answers which error, where
//! the session token is found in a request, and how the raw input of a few
//! endpoints becomes domain values. The routing, the JSON and the handlers
//! themselves stay at the edge.

use vstd::prelude::*;

use crate::application::command::{AuthenticatedUser, LogInCommand};
use crate::application::ApplicationError;
use crate::domain::auth::{AuthError, Password, PasswordError, SessionToken};
use crate::domain::community::CommunityError;
use crate::domain::identity::{Handle, HandleError};
use crate::domain::marketplace::{
    ListingDescription, ListingDescriptionError, ListingDraft, ListingTitle, ListingTitleError,
    MarketplaceError, Price, PriceError,
};
use crate::domain::messaging::MessagingError;
use crate::domain::music::{
    AudioRef, AudioRefError, Genre, GenreError, MusicError, TrackDraft, TrackTitle, TrackTitleError,
};
use crate::domain::openapi::{ApiKeyToken, OpenApiError};
use crate::domain::verification::{DecisionReason, DecisionReasonError, RequestNote, RequestNoteError};
use crate::domain::RepositoryError;
use crate::text::{chars_of, has_prefix, starts_with, trim, trim_seq, view_outcome};

verus! {

/// The HTTP status that answers an error of a use case: a breach of a rule
/// about the state is a conflict, a missing right is forbidden, a missing
/// entity is not found, a failed login or session is unauthorized, and a
/// failing store is unavailable (its detail is not shown).
pub open spec fn spec_app_error_status(err: ApplicationError) -> u16 {
    match err {
        ApplicationError::Invite(_) => 409,
        ApplicationError::Messaging(MessagingError::SelfConversation) => 422,
        ApplicationError::Messaging(MessagingError::NotParticipant) => 403,
        ApplicationError::Community(CommunityError::NotPermitted) => 403,
        ApplicationError::Community(CommunityError::TargetNotMember) => 404,
        ApplicationError::Community(CommunityError::NotMember) => 404,
        ApplicationError::Community(_) => 409,
        ApplicationError::Auth(_) => 401,
        ApplicationError::Marketplace(MarketplaceError::NotActive) => 409,
        ApplicationError::Marketplace(_) => 403,
        ApplicationError::Music(MusicError::NotPublished) => 409,
        ApplicationError::Music(_) => 403,
        ApplicationError::OpenApi(OpenApiError::AlreadyRevoked) => 409,
        ApplicationError::OpenApi(_) => 403,
        ApplicationError::Verification(_) => 409,
        ApplicationError::NotFound(_) => 404,
        ApplicationError::Forbidden(_) => 403,
        ApplicationError::Conflict(_) => 409,
        ApplicationError::Repository(RepositoryError::NotFound) => 404,
        ApplicationError::Repository(RepositoryError::Conflict) => 409,
        ApplicationError::Repository(RepositoryError::Unavailable(_)) => 503,
    }
}

/// The status of an error, as the HTTP edge answers it.
pub fn app_error_status(err: &ApplicationError) -> (r: u16)
    ensures
        r == spec_app_error_status(*err),
{
    match err {
        ApplicationError::Invite(_) => 409,
        ApplicationError::Messaging(MessagingError::SelfConversation) => 422,
        ApplicationError::Messaging(MessagingError::NotParticipant) => 403,
        ApplicationError::Community(CommunityError::NotPermitted) => 403,
        ApplicationError::Community(CommunityError::TargetNotMember) => 404,
        ApplicationError::Community(CommunityError::NotMember) => 404,
        ApplicationError::Community(_) => 409,
        ApplicationError::Auth(_) => 401,
        ApplicationError::Marketplace(MarketplaceError::NotActive) => 409,
        ApplicationError::Marketplace(_) => 403,
        ApplicationError::Music(MusicError::NotPublished) => 409,
        ApplicationError::Music(_) => 403,
        ApplicationError::OpenApi(OpenApiError::AlreadyRevoked) => 409,
        ApplicationError::OpenApi(_) => 403,
        ApplicationError::Verification(_) => 409,
        ApplicationError::NotFound(_) => 404,
        ApplicationError::Forbidden(_) => 403,
        ApplicationError::Conflict(_) => 409,
        ApplicationError::Repository(RepositoryError::NotFound) => 404,
        ApplicationError::Repository(RepositoryError::Conflict) => 409,
        ApplicationError::Repository(RepositoryError::Unavailable(_)) => 503,
    }
}

/// The error of an endpoint: invalid input (a value object's rule is broken)
/// or the error of a use case.
pub enum ApiError {
    /// Invalid input, with the text that says why; answered with 422.
    Validation(String),
    /// The error of a use case.
    App(ApplicationError),
}

impl From<ApplicationError> for ApiError {
    fn from(err: ApplicationError) -> (r: Self)
        ensures
            r == ApiError::App(err),
    {
        ApiError::App(err)
    }
}

impl vstd::std_specs::convert::FromSpecImpl<ApplicationError> for ApiError {
    open spec fn obeys_from_spec() -> bool {
        true
    }

    open spec fn from_spec(err: ApplicationError) -> Self {
        ApiError::App(err)
    }
}

/// Invalid input, with the text of the broken rule.
pub fn invalid(message: String) -> (r: ApiError)
    ensures
        r == ApiError::Validation(message),
{
    ApiError::Validation(message)
}

/// The status that answers an error of an endpoint: 422 for invalid input,
/// else the status of the use case's error.
pub fn api_error_status(err: &ApiError) -> (r: u16)
    ensures
        r == (match *err {
            ApiError::Validation(_) => 422,
            ApiError::App(e) => spec_app_error_status(e),
        }),
{
    match err {
        ApiError::Validation(_) => 422,
        ApiError::App(e) => app_error_status(e),
    }
}

/// The text that answers an error of an endpoint: the broken rule for invalid
/// input, else the use case's error, except that a failing store is answered
/// without its detail.
pub open spec fn spec_public_message(err: ApiError) -> Seq<char> {
    match err {
        ApiError::Validation(text) => text@,
        ApiError::App(ApplicationError::Repository(RepositoryError::Unavailable(_))) => "хранилище недоступно"@,
        ApiError::App(e) => e.spec_message(),
    }
}

/// The text that answers an error of an endpoint.
pub fn public_message(err: &ApiError) -> (r: String)
    ensures
        r@ == spec_public_message(*err),
{
    match err {
        ApiError::Validation(text) => text.clone(),
        ApiError::App(ApplicationError::Repository(RepositoryError::Unavailable(_))) => "хранилище недоступно".to_owned(),
        ApiError::App(e) => e.message(),
    }
}

/// Why the credentials of the admin bootstrap are refused.
#[derive(Debug, Clone, PartialEq, Eq, Structural)]
pub enum BootstrapInputError {
    Handle(HandleError),
    Password(PasswordError),
}

/// The credentials of the admin bootstrap: the handle and then the password
/// must satisfy their rules.
pub fn bootstrap_credentials(handle: &str, password: &str) -> (r: Result<(Handle, Password), BootstrapInputError>)
    ensures
        match Handle::spec_parse(handle@) {
            Err(e) => r == Err::<(Handle, Password), BootstrapInputError>(BootstrapInputError::Handle(e)),
            Ok(h) => match Password::spec_parse(password@) {
                Err(e) => r == Err::<(Handle, Password), BootstrapInputError>(BootstrapInputError::Password(e)),
                Ok(p) => r matches Ok((hv, pv)) && hv@ == h && pv@ == p,
            },
        },
{
    let h = match Handle::parse(handle) {
        Ok(h) => h,
        Err(e) => return Err(BootstrapInputError::Handle(e)),
    };
    let p = match Password::parse(password) {
        Ok(p) => p,
        Err(e) => return Err(BootstrapInputError::Password(e)),
    };
    Ok((h, p))
}

// ---- the session token of a request ----

/// The token of an `Authorization` header of the form `Bearer <token>`,
/// trimmed.
pub open spec fn bearer_token(auth: Seq<char>) -> Option<Seq<char>> {
    if starts_with(auth, "Bearer "@) {
        Some(trim_seq(auth.skip(7)))
    } else {
        None
    }
}

/// The position of the first `;` at or after `from`, or the end.
pub open spec fn semicolon_at(c: Seq<char>, from: nat) -> nat
    decreases c.len() - from,
{
    if from >= c.len() {
        c.len()
    } else if c[from as int] == ';' {
        from
    } else {
        semicolon_at(c, from + 1)
    }
}

pub proof fn lemma_semicolon_at(c: Seq<char>, from: nat)
    requires
        from <= c.len(),
    ensures
        from <= semicolon_at(c, from) <= c.len(),
        semicolon_at(c, from) < c.len() ==> c[semicolon_at(c, from) as int] == ';',
        forall|k: int| from <= k < semicolon_at(c, from) ==> c[k] != ';',
    decreases c.len() - from,
{
    if from < c.len() && c[from as int] != ';' {
        lemma_semicolon_at(c, from + 1);
    }
}

/// The value of the first `session=` among the `;`-separated pieces of a
/// `Cookie` header from `start` on, each piece trimmed.
pub open spec fn cookie_session(c: Seq<char>, start: nat) -> Option<Seq<char>>
    decreases c.len() - start,
{
    if start > c.len() {
        None
    } else {
        let i = semicolon_at(c, start);
        let piece = trim_seq(c.subrange(start as int, i as int));
        if starts_with(piece, "session="@) {
            Some(piece.skip(8))
        } else if i < c.len() {
            proof {
                lemma_semicolon_at(c, start);
            }
            cookie_session(c, i + 1)
        } else {
            None
        }
    }
}

/// The session token of a request: first an `Authorization: Bearer` header,
/// then the cookie `session`.
pub open spec fn spec_token_from_headers(auth: Option<Seq<char>>, cookie: Option<Seq<char>>) -> Option<Seq<char>> {
    match auth {
        Some(a) if bearer_token(a) is Some => bearer_token(a),
        _ => match cookie {
            Some(c) => cookie_session(c, 0),
            None => None,
        },
    }
}

/// The view of an optional header.
pub open spec fn header_view(h: Option<&str>) -> Option<Seq<char>> {
    match h {
        Some(s) => Some(s@),
        None => None,
    }
}

/// The value of the `session=` cookie, if the header has one.
fn cookie_value(cookie: &str) -> (r: Option<String>)
    ensures
        match r {
            Some(t) => cookie_session(cookie@, 0) == Some(t@),
            None => cookie_session(cookie@, 0) is None,
        },
{
    let chars = chars_of(cookie);
    let n = chars.len();
    let mut start: usize = 0;
    loop
        invariant
            chars@ == cookie@,
            n == cookie@.len(),
            start <= n,
            cookie_session(cookie@, 0) == cookie_session(cookie@, start as nat),
        decreases n - start,
    {
        let mut i = start;
        while i < n && chars[i] != ';'
            invariant
                start <= i <= n,
                chars@ == cookie@,
                n == cookie@.len(),
                semicolon_at(cookie@, start as nat) == semicolon_at(cookie@, i as nat),
            decreases n - i,
        {
            i = i + 1;
        }
        proof {
            lemma_semicolon_at(cookie@, start as nat);
        }
        let piece = trim(cookie.substring_char(start, i));
        let piece_chars = chars_of(piece);
        if has_prefix(&piece_chars, "session=") {
            proof {
                reveal_strlit("session=");
            }
            return Some(piece.substring_char(8, piece.unicode_len()).to_owned());
        }
        if i >= n {
            return None;
        }
        start = i + 1;
    }
}

/// Find the session token in a request's headers: first `Authorization:
/// Bearer`, then the cookie `session`. The edge hands the header values that
/// are visible text.
pub fn token_from_headers(authorization: Option<&str>, cookie: Option<&str>) -> (r: Option<String>)
    ensures
        match r {
            Some(t) => spec_token_from_headers(header_view(authorization), header_view(cookie)) == Some(t@),
            None => spec_token_from_headers(header_view(authorization), header_view(cookie)) is None,
        },
{
    proof {
        reveal_strlit("Bearer ");
    }
    if let Some(auth) = authorization {
        let auth_chars = chars_of(auth);
        if has_prefix(&auth_chars, "Bearer ") {
            let rest = auth.substring_char(7, auth.unicode_len());
            proof {
                assert(rest@ =~= auth@.skip(7));
            }
            return Some(trim(rest).to_owned());
        }
    }
    match cookie {
        Some(c) => cookie_value(c),
        None => None,
    }
}

// ---- the input of endpoints ----

/// The login command of the raw input. An invalid handle or password is the
/// same `InvalidCredentials` as a wrong one (against enumeration).
pub fn login_command(handle: &str, password: &str) -> (r: Result<LogInCommand, ApplicationError>)
    ensures
        match r {
            Ok(cmd) => {
                &&& Handle::spec_parse(handle@) == Ok::<Seq<char>, crate::domain::identity::HandleError>(cmd.handle@)
                &&& Password::spec_parse(password@) == Ok::<Seq<char>, crate::domain::auth::PasswordError>(cmd.password@)
            },
            Err(e) => {
                &&& (Handle::spec_parse(handle@) is Err || Password::spec_parse(password@) is Err)
                &&& e == ApplicationError::Auth(AuthError::InvalidCredentials)
            },
        },
{
    let handle = match Handle::parse(handle) {
        Ok(h) => h,
        Err(_) => return Err(ApplicationError::Auth(AuthError::InvalidCredentials)),
    };
    let password = match Password::parse(password) {
        Ok(p) => p,
        Err(_) => return Err(ApplicationError::Auth(AuthError::InvalidCredentials)),
    };
    Ok(LogInCommand { handle, password })
}

/// The session token of a request for the required current user: a missing
/// or malformed token is `Unauthenticated`.
pub fn required_session_token(raw: Option<String>) -> (r: Result<SessionToken, ApplicationError>)
    ensures
        match raw {
            Some(t) => match SessionToken::spec_parse(t@) {
                Ok(v) => r matches Ok(token) && token@ == v,
                Err(_) => r == Err::<SessionToken, ApplicationError>(ApplicationError::Auth(AuthError::Unauthenticated)),
            },
            None => r == Err::<SessionToken, ApplicationError>(ApplicationError::Auth(AuthError::Unauthenticated)),
        },
{
    match raw {
        Some(t) => match SessionToken::parse(t.as_str()) {
            Ok(token) => Ok(token),
            Err(_) => Err(ApplicationError::Auth(AuthError::Unauthenticated)),
        },
        None => Err(ApplicationError::Auth(AuthError::Unauthenticated)),
    }
}

/// The session token of a request for an optional viewer: none, or a
/// malformed one, reads as an anonymous viewer.
pub fn optional_session_token(raw: Option<String>) -> (r: Option<SessionToken>)
    ensures
        match raw {
            Some(t) => match SessionToken::spec_parse(t@) {
                Ok(v) => r matches Some(token) && token@ == v,
                Err(_) => r is None,
            },
            None => r is None,
        },
{
    match raw {
        Some(t) => match SessionToken::parse(t.as_str()) {
            Ok(token) => Some(token),
            Err(_) => None,
        },
        None => None,
    }
}

/// The optional viewer of a public read: an authentication failure reads as
/// an anonymous viewer, while a failing store is reported, so that a logged-in
/// reader is never silently served the anonymous view.
pub fn optional_viewer(outcome: Result<AuthenticatedUser, ApplicationError>) -> (r: Result<
    Option<AuthenticatedUser>,
    ApplicationError,
>)
    ensures
        match outcome {
            Ok(who) => r == Ok::<Option<AuthenticatedUser>, ApplicationError>(Some(who)),
            Err(ApplicationError::Auth(_)) => r == Ok::<Option<AuthenticatedUser>, ApplicationError>(None),
            Err(e) => r == Err::<Option<AuthenticatedUser>, ApplicationError>(e),
        },
{
    match outcome {
        Ok(who) => Ok(Some(who)),
        Err(ApplicationError::Auth(_)) => Ok(None),
        Err(e) => Err(e),
    }
}

/// An optional note of a request: a text that is blank after trimming is no
/// note; any other must satisfy the note's rules.
pub fn parse_note(raw: Option<String>) -> (r: Result<Option<RequestNote>, RequestNoteError>)
    ensures
        match raw {
            None => r == Ok::<Option<RequestNote>, RequestNoteError>(None),
            Some(t) => if trim_seq(t@).len() == 0 {
                r == Ok::<Option<RequestNote>, RequestNoteError>(None)
            } else {
                match RequestNote::spec_parse(trim_seq(t@)) {
                    Ok(v) => r matches Ok(Some(note)) && note@ == v,
                    Err(e) => r == Err::<Option<RequestNote>, RequestNoteError>(e),
                }
            },
        },
{
    match raw {
        None => Ok(None),
        Some(t) => {
            let s = trim(t.as_str());
            if s.unicode_len() == 0 {
                Ok(None)
            } else {
                match RequestNote::parse(s) {
                    Ok(note) => Ok(Some(note)),
                    Err(e) => Err(e),
                }
            }
        },
    }
}

/// An optional reason of a decision, by the same rule as a note.
pub fn parse_reason(raw: Option<String>) -> (r: Result<Option<DecisionReason>, DecisionReasonError>)
    ensures
        match raw {
            None => r == Ok::<Option<DecisionReason>, DecisionReasonError>(None),
            Some(t) => if trim_seq(t@).len() == 0 {
                r == Ok::<Option<DecisionReason>, DecisionReasonError>(None)
            } else {
                match DecisionReason::spec_parse(trim_seq(t@)) {
                    Ok(v) => r matches Ok(Some(reason)) && reason@ == v,
                    Err(e) => r == Err::<Option<DecisionReason>, DecisionReasonError>(e),
                }
            },
        },
{
    match raw {
        None => Ok(None),
        Some(t) => {
            let s = trim(t.as_str());
            if s.unicode_len() == 0 {
                Ok(None)
            } else {
                match DecisionReason::parse(s) {
                    Ok(reason) => Ok(Some(reason)),
                    Err(e) => Err(e),
                }
            }
        },
    }
}

/// Why the input of a new listing is refused.
#[derive(Debug, Clone, PartialEq, Eq, Structural)]
pub enum ListingInputError {
    Description(ListingDescriptionError),
    Title(ListingTitleError),
    Price(PriceError),
}

/// The draft of a new listing from the raw input; the description is checked
/// first, then the title, then the price.
pub fn listing_draft(title: &str, price: u64, description: Option<&str>) -> (r: Result<ListingDraft, ListingInputError>)
    ensures
        match r {
            Ok(d) => {
                &&& ListingTitle::spec_parse(title@) == Ok::<Seq<char>, ListingTitleError>(d.title@)
                &&& Price::spec_parse(price) == Ok::<u64, PriceError>(d.price@)
                &&& match description {
                    Some(t) => d.description matches Some(v) && ListingDescription::spec_parse(t@)
                        == Ok::<Seq<char>, ListingDescriptionError>(v@),
                    None => d.description is None,
                }
            },
            Err(ListingInputError::Description(e)) => description matches Some(t)
                && ListingDescription::spec_parse(t@) == Err::<Seq<char>, ListingDescriptionError>(e),
            Err(ListingInputError::Title(e)) => {
                &&& (description matches Some(t) ==> ListingDescription::spec_parse(t@) is Ok)
                &&& ListingTitle::spec_parse(title@) == Err::<Seq<char>, ListingTitleError>(e)
            },
            Err(ListingInputError::Price(e)) => {
                &&& (description matches Some(t) ==> ListingDescription::spec_parse(t@) is Ok)
                &&& ListingTitle::spec_parse(title@) is Ok
                &&& Price::spec_parse(price) == Err::<u64, PriceError>(e)
            },
        },
{
    let description = match description {
        Some(t) => match ListingDescription::parse(t) {
            Ok(d) => Some(d),
            Err(e) => return Err(ListingInputError::Description(e)),
        },
        None => None,
    };
    let title = match ListingTitle::parse(title) {
        Ok(t) => t,
        Err(e) => return Err(ListingInputError::Title(e)),
    };
    let price = match Price::parse(price) {
        Ok(p) => p,
        Err(e) => return Err(ListingInputError::Price(e)),
    };
    Ok(ListingDraft { title, price, description })
}

/// The API key of a request to the open API: a missing or malformed key is
/// `Unauthenticated`.
pub fn required_api_key(raw: Option<String>) -> (r: Result<ApiKeyToken, ApplicationError>)
    ensures
        match raw {
            Some(t) => match ApiKeyToken::spec_parse(t@) {
                Ok(v) => r matches Ok(key) && key@ == v,
                Err(_) => r == Err::<ApiKeyToken, ApplicationError>(ApplicationError::Auth(AuthError::Unauthenticated)),
            },
            None => r == Err::<ApiKeyToken, ApplicationError>(ApplicationError::Auth(AuthError::Unauthenticated)),
        },
{
    match raw {
        Some(t) => match ApiKeyToken::parse(t.as_str()) {
            Ok(key) => Ok(key),
            Err(_) => Err(ApplicationError::Auth(AuthError::Unauthenticated)),
        },
        None => Err(ApplicationError::Auth(AuthError::Unauthenticated)),
    }
}

/// Why the input of a new track is refused.
#[derive(Debug, Clone, PartialEq, Eq, Structural)]
pub enum TrackInputError {
    Title(TrackTitleError),
    Audio(AudioRefError),
    Genre(GenreError),
}

/// The draft of a new track from the raw input; the title is checked first,
/// then the link to the audio, then the genre.
pub fn track_draft(title: &str, audio_url: &str, genre: Option<&str>) -> (r: Result<TrackDraft, TrackInputError>)
    ensures
        match r {
            Ok(d) => {
                &&& TrackTitle::spec_parse(title@) == Ok::<Seq<char>, TrackTitleError>(d.title@)
                &&& AudioRef::spec_parse(audio_url@) == Ok::<Seq<char>, AudioRefError>(d.audio@)
                &&& match genre {
                    Some(g) => d.genre matches Some(v) && Genre::spec_parse(g@) == Ok::<Seq<char>, GenreError>(v@),
                    None => d.genre is None,
                }
            },
            Err(TrackInputError::Title(e)) => TrackTitle::spec_parse(title@) == Err::<Seq<char>, TrackTitleError>(e),
            Err(TrackInputError::Audio(e)) => {
                &&& TrackTitle::spec_parse(title@) is Ok
                &&& AudioRef::spec_parse(audio_url@) == Err::<Seq<char>, AudioRefError>(e)
            },
            Err(TrackInputError::Genre(e)) => {
                &&& TrackTitle::spec_parse(title@) is Ok
                &&& AudioRef::spec_parse(audio_url@) is Ok
                &&& genre matches Some(g) && Genre::spec_parse(g@) == Err::<Seq<char>, GenreError>(e)
            },
        },
{
    let title = match TrackTitle::parse(title) {
        Ok(t) => t,
        Err(e) => return Err(TrackInputError::Title(e)),
    };
    let audio = match AudioRef::parse(audio_url) {
        Ok(a) => a,
        Err(e) => return Err(TrackInputError::Audio(e)),
    };
    let genre = match genre {
        Some(g) => match Genre::parse(g) {
            Ok(v) => Some(v),
            Err(e) => return Err(TrackInputError::Genre(e)),
        },
        None => None,
    };
    Ok(TrackDraft { title, audio, genre })
}

impl BootstrapInputError {
    /// The text of the error, as a reader sees it.
    pub open spec fn spec_message(self) -> Seq<char> {
        match self {
            BootstrapInputError::Handle(e) => "ADMIN_BOOTSTRAP_HANDLE: "@ + e.spec_message(),
            BootstrapInputError::Password(e) => "ADMIN_BOOTSTRAP_PASSWORD: "@ + e.spec_message(),
        }
    }

    /// The text of the error, as a reader sees it.
    pub fn message(&self) -> (r: String)
        ensures
            r@ == self.spec_message(),
    {
        match self {
            BootstrapInputError::Handle(e) => {
                let mut s = "ADMIN_BOOTSTRAP_HANDLE: ".to_owned();
                s.push_str(e.message().as_str());
                s
            },
            BootstrapInputError::Password(e) => {
                let mut s = "ADMIN_BOOTSTRAP_PASSWORD: ".to_owned();
                s.push_str(e.message().as_str());
                s
            },
        }
    }
}

impl ListingInputError {
    /// The text of the error, as a reader sees it.
    pub open spec fn spec_message(self) -> Seq<char> {
        match self {
            ListingInputError::Description(e) => e.spec_message(),
            ListingInputError::Title(e) => e.spec_message(),
            ListingInputError::Price(e) => e.spec_message(),
        }
    }

    /// The text of the error, as a reader sees it.
    pub fn message(&self) -> (r: String)
        ensures
            r@ == self.spec_message(),
    {
        match self {
            ListingInputError::Description(e) => e.message(),
            ListingInputError::Title(e) => e.message(),
            ListingInputError::Price(e) => e.message(),
        }
    }
}

impl TrackInputError {
    /// The text of the error, as a reader sees it.
    pub open spec fn spec_message(self) -> Seq<char> {
        match self {
            TrackInputError::Title(e) => e.spec_message(),
            TrackInputError::Audio(e) => e.spec_message(),
            TrackInputError::Genre(e) => e.spec_message(),
        }
    }

    /// The text of the error, as a reader sees it.
    pub fn message(&self) -> (r: String)
        ensures
            r@ == self.spec_message(),
    {
        match self {
            TrackInputError::Title(e) => e.message(),
            TrackInputError::Audio(e) => e.message(),
            TrackInputError::Genre(e) => e.message(),
        }
    }
}

} // verus!
