//! The one error of the application layer: domain breaches and port failures
//! wrapped, so that the HTTP edge and the UI see a single type.

use vstd::prelude::*;
use vstd::std_specs::convert::FromSpecImpl;
use crate::domain::identity::InviteError;
use crate::domain::RepositoryError;
use crate::domain::auth::AuthError;
use crate::domain::messaging::MessagingError;
use crate::domain::community::CommunityError;
use crate::domain::marketplace::MarketplaceError;
use crate::domain::verification::VerificationError;
use crate::domain::music::MusicError;
use crate::domain::openapi::OpenApiError;

verus! {

/// What went wrong in a use case.
#[derive(Debug, Clone, PartialEq, Eq)]
pub enum ApplicationError {
    /// A rule of issuing or accepting invites was broken (quota, cooldown, status).
    Invite(InviteError),
    /// A repository port failed.
    Repository(RepositoryError),
    /// Authentication failed.
    Auth(AuthError),
    /// A rule of private messaging was broken.
    Messaging(MessagingError),
    /// A rule of communities was broken.
    Community(CommunityError),
    /// A rule of the marketplace was broken.
    Marketplace(MarketplaceError),
    /// A rule of verification requests was broken.
    Verification(VerificationError),
    /// A rule of the music section was broken.
    Music(MusicError),
    /// A rule of API keys was broken.
    OpenApi(OpenApiError),
    /// An expected entity is missing; the text names which.
    NotFound(&'static str),
    /// The actor lacks the right; the text says which.
    Forbidden(&'static str),
    /// The state forbids the step (already verified, a request already open).
    Conflict(&'static str),
}

impl From<InviteError> for ApplicationError {
    fn from(e: InviteError) -> (r: Self)
        ensures
            r == ApplicationError::Invite(e),
    {
        ApplicationError::Invite(e)
    }
}

impl FromSpecImpl<InviteError> for ApplicationError {
    open spec fn obeys_from_spec() -> bool {
        true
    }

    open spec fn from_spec(e: InviteError) -> Self {
        ApplicationError::Invite(e)
    }
}

impl From<RepositoryError> for ApplicationError {
    fn from(e: RepositoryError) -> (r: Self)
        ensures
            r == ApplicationError::Repository(e),
    {
        ApplicationError::Repository(e)
    }
}

impl FromSpecImpl<RepositoryError> for ApplicationError {
    open spec fn obeys_from_spec() -> bool {
        true
    }

    open spec fn from_spec(e: RepositoryError) -> Self {
        ApplicationError::Repository(e)
    }
}

impl From<AuthError> for ApplicationError {
    fn from(e: AuthError) -> (r: Self)
        ensures
            r == ApplicationError::Auth(e),
    {
        ApplicationError::Auth(e)
    }
}

impl FromSpecImpl<AuthError> for ApplicationError {
    open spec fn obeys_from_spec() -> bool {
        true
    }

    open spec fn from_spec(e: AuthError) -> Self {
        ApplicationError::Auth(e)
    }
}

impl From<MessagingError> for ApplicationError {
    fn from(e: MessagingError) -> (r: Self)
        ensures
            r == ApplicationError::Messaging(e),
    {
        ApplicationError::Messaging(e)
    }
}

impl FromSpecImpl<MessagingError> for ApplicationError {
    open spec fn obeys_from_spec() -> bool {
        true
    }

    open spec fn from_spec(e: MessagingError) -> Self {
        ApplicationError::Messaging(e)
    }
}

impl From<CommunityError> for ApplicationError {
    fn from(e: CommunityError) -> (r: Self)
        ensures
            r == ApplicationError::Community(e),
    {
        ApplicationError::Community(e)
    }
}

impl FromSpecImpl<CommunityError> for ApplicationError {
    open spec fn obeys_from_spec() -> bool {
        true
    }

    open spec fn from_spec(e: CommunityError) -> Self {
        ApplicationError::Community(e)
    }
}

impl From<MarketplaceError> for ApplicationError {
    fn from(e: MarketplaceError) -> (r: Self)
        ensures
            r == ApplicationError::Marketplace(e),
    {
        ApplicationError::Marketplace(e)
    }
}

impl FromSpecImpl<MarketplaceError> for ApplicationError {
    open spec fn obeys_from_spec() -> bool {
        true
    }

    open spec fn from_spec(e: MarketplaceError) -> Self {
        ApplicationError::Marketplace(e)
    }
}

impl From<VerificationError> for ApplicationError {
    fn from(e: VerificationError) -> (r: Self)
        ensures
            r == ApplicationError::Verification(e),
    {
        ApplicationError::Verification(e)
    }
}

impl FromSpecImpl<VerificationError> for ApplicationError {
    open spec fn obeys_from_spec() -> bool {
        true
    }

    open spec fn from_spec(e: VerificationError) -> Self {
        ApplicationError::Verification(e)
    }
}

impl From<MusicError> for ApplicationError {
    fn from(e: MusicError) -> (r: Self)
        ensures
            r == ApplicationError::Music(e),
    {
        ApplicationError::Music(e)
    }
}

impl FromSpecImpl<MusicError> for ApplicationError {
    open spec fn obeys_from_spec() -> bool {
        true
    }

    open spec fn from_spec(e: MusicError) -> Self {
        ApplicationError::Music(e)
    }
}

impl From<OpenApiError> for ApplicationError {
    fn from(e: OpenApiError) -> (r: Self)
        ensures
            r == ApplicationError::OpenApi(e),
    {
        ApplicationError::OpenApi(e)
    }
}

impl FromSpecImpl<OpenApiError> for ApplicationError {
    open spec fn obeys_from_spec() -> bool {
        true
    }

    open spec fn from_spec(e: OpenApiError) -> Self {
        ApplicationError::OpenApi(e)
    }
}

impl ApplicationError {
    /// The text of the error, as a reader sees it.
    pub open spec fn spec_message(self) -> Seq<char> {
        match self {
            ApplicationError::Invite(e) => e.spec_message(),
            ApplicationError::Repository(e) => e.spec_message(),
            ApplicationError::Auth(e) => e.spec_message(),
            ApplicationError::Messaging(e) => e.spec_message(),
            ApplicationError::Community(e) => e.spec_message(),
            ApplicationError::Marketplace(e) => e.spec_message(),
            ApplicationError::Verification(e) => e.spec_message(),
            ApplicationError::Music(e) => e.spec_message(),
            ApplicationError::OpenApi(e) => e.spec_message(),
            ApplicationError::NotFound(what) => "не найдено: "@ + what@,
            ApplicationError::Forbidden(what) => "запрещено: "@ + what@,
            ApplicationError::Conflict(what) => "конфликт: "@ + what@,
        }
    }

    /// The text of the error, as a reader sees it.
    pub fn message(&self) -> (r: String)
        ensures
            r@ == self.spec_message(),
    {
        match self {
            ApplicationError::Invite(e) => e.message(),
            ApplicationError::Repository(e) => e.message(),
            ApplicationError::Auth(e) => e.message(),
            ApplicationError::Messaging(e) => e.message(),
            ApplicationError::Community(e) => e.message(),
            ApplicationError::Marketplace(e) => e.message(),
            ApplicationError::Verification(e) => e.message(),
            ApplicationError::Music(e) => e.message(),
            ApplicationError::OpenApi(e) => e.message(),
            ApplicationError::NotFound(what) => {
                let mut s = "не найдено: ".to_owned();
                s.push_str(*what);
                s
            },
            ApplicationError::Forbidden(what) => {
                let mut s = "запрещено: ".to_owned();
                s.push_str(*what);
                s
            },
            ApplicationError::Conflict(what) => {
                let mut s = "конфликт: ".to_owned();
                s.push_str(*what);
                s
            },
        }
    }
}

} // verus!
