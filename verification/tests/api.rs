use babangida::api::{
    api_error_status, app_error_status, bootstrap_credentials, invalid, listing_draft,
    login_command, optional_session_token, optional_viewer, parse_note, parse_reason,
    required_api_key, required_session_token, token_from_headers, track_draft, ApiError,
    BootstrapInputError, ListingInputError, TrackInputError,
};
use babangida::application::command::AuthenticatedUser;
use babangida::application::ApplicationError;
use babangida::domain::auth::{AuthError, PasswordError};
use babangida::domain::community::CommunityError;
use babangida::domain::identity::{Handle, HandleError, InviteError, VerifiedStatus};
use babangida::domain::marketplace::{ListingDescriptionError, ListingTitleError, MarketplaceError, PriceError};
use babangida::domain::messaging::MessagingError;
use babangida::domain::music::{AudioRefError, GenreError, MusicError, TrackTitleError};
use babangida::domain::openapi::OpenApiError;
use babangida::domain::verification::{RequestNoteError, VerificationError};
use babangida::domain::RepositoryError;
use babangida::mobile::{can_message, write_outcome};
use babangida::shared::id::Id;

#[test]
fn errors_map_to_statuses() {
    let cases = [
        (ApplicationError::Invite(InviteError::NotActive), 409),
        (ApplicationError::Messaging(MessagingError::SelfConversation), 422),
        (ApplicationError::Messaging(MessagingError::NotParticipant), 403),
        (ApplicationError::Community(CommunityError::NotPermitted), 403),
        (ApplicationError::Community(CommunityError::TargetNotMember), 404),
        (ApplicationError::Community(CommunityError::NotMember), 404),
        (ApplicationError::Community(CommunityError::SoleOwner), 409),
        (ApplicationError::Auth(AuthError::Unauthenticated), 401),
        (ApplicationError::Auth(AuthError::InvalidCredentials), 401),
        (ApplicationError::Marketplace(MarketplaceError::NotVerified), 403),
        (ApplicationError::Marketplace(MarketplaceError::NotSeller), 403),
        (ApplicationError::Marketplace(MarketplaceError::NotActive), 409),
        (ApplicationError::Music(MusicError::NotUploader), 403),
        (ApplicationError::Music(MusicError::NotPublished), 409),
        (ApplicationError::OpenApi(OpenApiError::NotOwner), 403),
        (ApplicationError::OpenApi(OpenApiError::AlreadyRevoked), 409),
        (ApplicationError::Verification(VerificationError::AlreadyDecided), 409),
        (ApplicationError::NotFound("user"), 404),
        (ApplicationError::Forbidden("только админ"), 403),
        (ApplicationError::Conflict("заявка уже на рассмотрении"), 409),
        (ApplicationError::Repository(RepositoryError::NotFound), 404),
        (ApplicationError::Repository(RepositoryError::Conflict), 409),
        (ApplicationError::Repository(RepositoryError::Unavailable("db down".to_owned())), 503),
    ];
    for (err, status) in cases {
        assert_eq!(app_error_status(&err), status, "{err:?}");
    }
    assert_eq!(api_error_status(&invalid("пост пустой".to_owned())), 422);
    assert_eq!(api_error_status(&ApiError::from(ApplicationError::NotFound("group"))), 404);
}

#[test]
fn the_session_token_is_found_in_the_headers() {
    assert_eq!(token_from_headers(Some("Bearer  abc  "), Some("session=zzz")), Some("abc".to_owned()));
    assert_eq!(token_from_headers(Some("Basic xyz"), Some("theme=dark; session=tok123; x=1")), Some("tok123".to_owned()));
    assert_eq!(token_from_headers(None, Some(" session=first ;session=second")), Some("first".to_owned()));
    assert_eq!(token_from_headers(None, Some("theme=dark")), None);
    assert_eq!(token_from_headers(Some("Bearer"), None), None);
    assert_eq!(token_from_headers(None, None), None);
    assert_eq!(token_from_headers(None, Some("session=")), Some(String::new()));
}

#[test]
fn login_input_failures_look_like_wrong_credentials() {
    let bad = Err(ApplicationError::Auth(AuthError::InvalidCredentials));
    assert_eq!(login_command("9x", "longenough").map(|_| ()), bad);
    assert_eq!(login_command("mc_test", "short").map(|_| ()), bad);
    let cmd = login_command(" MC_Test ", "longenough").ok().unwrap();
    assert_eq!(cmd.handle.as_str(), "mc_test");
    assert_eq!(cmd.password.expose(), "longenough");
}

#[test]
fn session_tokens_of_requests() {
    let unauth = ApplicationError::Auth(AuthError::Unauthenticated);
    assert_eq!(required_session_token(None).err(), Some(unauth.clone()));
    assert_eq!(required_session_token(Some("bad!".to_owned())).err(), Some(unauth.clone()));
    assert!(required_session_token(Some("a".repeat(40))).is_ok());
    assert!(optional_session_token(Some("bad!".to_owned())).is_none());
    assert!(optional_session_token(Some("a".repeat(40))).is_some());
    let who = AuthenticatedUser { user: Id::generate(), handle: Handle::parse("mc_test").unwrap(), verified: VerifiedStatus::Casual };
    assert!(optional_viewer(Ok(who)).unwrap().is_some());
    assert!(optional_viewer(Err(unauth)).unwrap().is_none());
    assert_eq!(
        optional_viewer(Err(ApplicationError::Repository(RepositoryError::Conflict))).err(),
        Some(ApplicationError::Repository(RepositoryError::Conflict))
    );
}

#[test]
fn blank_notes_are_no_notes() {
    assert!(parse_note(None).unwrap().is_none());
    assert!(parse_note(Some("   ".to_owned())).unwrap().is_none());
    assert_eq!(parse_note(Some(" пруфы ".to_owned())).unwrap().unwrap().as_str(), "пруфы");
    assert!(matches!(parse_note(Some("x".repeat(501))), Err(RequestNoteError::TooLong { .. })));
    assert!(parse_reason(Some("\t".to_owned())).unwrap().is_none());
    assert_eq!(parse_reason(Some("ок".to_owned())).unwrap().unwrap().as_str(), "ок");
}

#[test]
fn listing_input_is_checked_description_first() {
    assert_eq!(
        listing_draft(" ", 0, Some(" ")).err(),
        Some(ListingInputError::Description(ListingDescriptionError::Empty))
    );
    assert_eq!(listing_draft(" ", 0, None).err(), Some(ListingInputError::Title(ListingTitleError::Empty)));
    assert_eq!(listing_draft("MPC", 0, None).err(), Some(ListingInputError::Price(PriceError::Zero)));
    let d = listing_draft("MPC", 10, Some("живой")).ok().unwrap();
    assert_eq!(d.price.rubles(), 10);
    assert_eq!(d.description.unwrap().as_str(), "живой");
}

#[test]
fn bootstrap_credentials_are_checked() {
    assert_eq!(bootstrap_credentials("", "longenough").err(), Some(BootstrapInputError::Handle(HandleError::Empty)));
    assert_eq!(
        bootstrap_credentials("root", "short").err(),
        Some(BootstrapInputError::Password(PasswordError::TooShort { len: 5 }))
    );
    let (h, p) = bootstrap_credentials("ROOT", "longenough").ok().unwrap();
    assert_eq!(h.as_str(), "root");
    assert_eq!(p.expose(), "longenough");
}

#[test]
fn write_statuses_read_as_outcomes() {
    assert_eq!(write_outcome(201), Ok(()));
    assert_eq!(write_outcome(401), Err("сессия истекла — войди заново".to_owned()));
    assert_eq!(write_outcome(403), Err("недостаточно прав".to_owned()));
    assert_eq!(write_outcome(404), Err("не найдено".to_owned()));
    assert_eq!(write_outcome(409), Err("конфликт состояния".to_owned()));
    assert_eq!(write_outcome(422), Err("проверь ввод".to_owned()));
    assert_eq!(write_outcome(500), Err("не удалось выполнить".to_owned()));
}

#[test]
fn track_input_is_checked_title_first() {
    let d = track_draft(" Подвал ", "https://audio.example/p.mp3", Some("boom bap")).unwrap();
    assert_eq!(d.title.as_str(), "Подвал");
    assert_eq!(d.audio.as_str(), "https://audio.example/p.mp3");
    assert_eq!(d.genre.map(|g| g.as_str().to_owned()), Some("boom bap".to_owned()));
    assert!(track_draft("x", "https://a.example/t", None).unwrap().genre.is_none());
    assert_eq!(
        track_draft("", "not-a-url", Some("")).err(),
        Some(TrackInputError::Title(TrackTitleError::Empty))
    );
    assert_eq!(
        track_draft("x", "not-a-url", Some("")).err(),
        Some(TrackInputError::Audio(AudioRefError::NotHttp))
    );
    assert_eq!(
        track_draft("x", "https://a.example/t", Some(" ")).err(),
        Some(TrackInputError::Genre(GenreError::Empty))
    );
}

#[test]
fn the_key_of_an_open_api_request() {
    let raw = format!("bbg_{}", "a".repeat(40));
    assert_eq!(required_api_key(Some(raw.clone())).unwrap().as_str(), raw);
    assert_eq!(
        required_api_key(Some("bbg_short".to_owned())).err(),
        Some(ApplicationError::Auth(AuthError::Unauthenticated))
    );
    assert_eq!(required_api_key(None).err(), Some(ApplicationError::Auth(AuthError::Unauthenticated)));
}

#[test]
fn only_a_logged_in_stranger_is_offered_to_write() {
    assert!(can_message(true, Some("mc"), "artist"));
    assert!(can_message(true, None, "artist"));
    assert!(!can_message(true, Some("artist"), "artist"));
    assert!(!can_message(false, None, "artist"));
}
