//! The openapi context: personal API keys for the open API. Issuing one is a
//! privilege of the verified: the check is a domain invariant ([`ApiKey::issue`]
//! takes the [`VerifiedStatus`]).
//!
//! Making the secret and hashing it stand at the boundary; a ready
//! [`ApiKeyHash`] comes in here. The domain keeps the token format, the check of
//! issuance and the right of revocation.

use vstd::prelude::*;

use crate::domain::identity::{UserId, VerifiedStatus};
use crate::shared::id::{lemma_id_view_injective, Id};
use crate::shared::time::Timestamp;
use crate::text::{
    char_debug, chars_of, check_text, decimal, decimal_seq, first_bad, first_bad_token_char,
    lemma_first_bad_some, lemma_trim_idempotent, spec_char_debug, text_fault, token_rule, trim_seq,
    view_outcome, TextFault,
};

verus! {

broadcast use lemma_id_view_injective;

/// The opaque secret of a key that the integrator holds (Bearer for the open
/// API). High entropy, generated at the boundary and shown to the owner once.
#[derive(PartialEq, Eq, Hash)]
pub struct ApiKeyToken(String);

impl View for ApiKeyToken {
    type V = Seq<char>;

    closed spec fn view(&self) -> Seq<char> {
        self.0@
    }
}

impl Clone for ApiKeyToken {
    fn clone(&self) -> (r: Self)
        ensures
            r@ == self@,
    {
        ApiKeyToken(self.0.clone())
    }
}

/// A breach of the [`ApiKeyToken`] rules.
#[derive(Debug, Clone, PartialEq, Eq, Structural)]
pub enum ApiKeyTokenError {
    WrongLength { len: usize },
    InvalidChar(char),
}

impl ApiKeyToken {
    /// Minimum token length.
    pub const MIN_LEN: usize = 16;

    /// Maximum token length: longer input is refused as junk.
    pub const MAX_LEN: usize = 128;

    /// What [`ApiKeyToken::parse`] gives for a text.
    pub open spec fn spec_parse(input: Seq<char>) -> Result<Seq<char>, ApiKeyTokenError> {
        if !(16 <= input.len() <= 128) {
            Err(ApiKeyTokenError::WrongLength { len: input.len() as usize })
        } else {
            match first_bad(input, token_rule(), 0) {
                Some(k) => Err(ApiKeyTokenError::InvalidChar(input[k as int])),
                None => Ok(input),
            }
        }
    }

    /// Parse a token (from the factory or from a header): alphabet
    /// `A-Za-z0-9-_` (a `bbg_` prefix fits), length in `MIN_LEN..=MAX_LEN`.
    pub fn parse(input: &str) -> (r: Result<Self, ApiKeyTokenError>)
        ensures
            view_outcome(r) == Self::spec_parse(input@),
    {
        let chars = chars_of(input);
        let len = chars.len();
        if !(Self::MIN_LEN <= len && len <= Self::MAX_LEN) {
            return Err(ApiKeyTokenError::WrongLength { len });
        }
        let bad = first_bad_token_char(&chars);
        proof {
            if first_bad(chars@, token_rule(), 0) is Some {
                lemma_first_bad_some(chars@, token_rule(), 0);
            }
        }
        match bad {
            Some(i) => Err(ApiKeyTokenError::InvalidChar(chars[i])),
            None => Ok(ApiKeyToken(input.to_owned())),
        }
    }

    /// The value, for hashing or for handing to the owner. Called only by the
    /// boundary.
    pub fn as_str(&self) -> (r: &str)
        ensures
            r@ == self@,
    {
        self.0.as_str()
    }

    /// What the debug output shows: the secret is hidden.
    pub fn debug_string(&self) -> (r: String)
        ensures
            r@ == "ApiKeyToken(***)"@,
    {
        "ApiKeyToken(***)".to_owned()
    }
}

/// The hash of a key (for storing, and for lookup at authentication). Opaque to
/// the domain; its one source is the key hasher.
#[derive(PartialEq, Eq)]
pub struct ApiKeyHash(String);

impl View for ApiKeyHash {
    type V = Seq<char>;

    closed spec fn view(&self) -> Seq<char> {
        self.0@
    }
}

impl Clone for ApiKeyHash {
    fn clone(&self) -> (r: Self)
        ensures
            r@ == self@,
    {
        ApiKeyHash(self.0.clone())
    }
}

impl ApiKeyHash {
    /// Wrap a ready hash (from the hasher, or from storage).
    pub fn from_storage(value: String) -> (r: Self)
        ensures
            r@ == value@,
    {
        ApiKeyHash(value)
    }

    /// The text, for storing and lookup.
    pub fn as_str(&self) -> (r: &str)
        ensures
            r@ == self@,
    {
        self.0.as_str()
    }

    /// What the debug output shows: the hash is hidden.
    pub fn debug_string(&self) -> (r: String)
        ensures
            r@ == "ApiKeyHash(***)"@,
    {
        "ApiKeyHash(***)".to_owned()
    }
}

/// Label of a key: the name its owner knows it by in the list. 1..=80 characters.
#[derive(Debug, PartialEq, Eq)]
pub struct ApiKeyLabel(String);

impl View for ApiKeyLabel {
    type V = Seq<char>;

    closed spec fn view(&self) -> Seq<char> {
        self.0@
    }
}

impl Clone for ApiKeyLabel {
    fn clone(&self) -> (r: Self)
        ensures
            r@ == self@,
    {
        ApiKeyLabel(self.0.clone())
    }
}

/// A breach of the [`ApiKeyLabel`] rules.
#[derive(Debug, Clone, PartialEq, Eq, Structural)]
pub enum ApiKeyLabelError {
    Empty,
    TooLong { len: usize },
}

impl ApiKeyLabel {
    /// Maximum length, in characters.
    pub const MAX_LEN: usize = 80;

    /// What [`ApiKeyLabel::parse`] gives for a text: the trimmed text, or why it is
    /// refused.
    pub open spec fn spec_parse(input: Seq<char>) -> Result<Seq<char>, ApiKeyLabelError> {
        match text_fault(input, 80) {
            Some(TextFault::Empty) => Err(ApiKeyLabelError::Empty),
            Some(TextFault::TooLong(len)) => Err(ApiKeyLabelError::TooLong { len }),
            None => Ok(trim_seq(input)),
        }
    }

    /// Parse: trimmed, 1..=`MAX_LEN` characters.
    pub fn parse(input: &str) -> (r: Result<Self, ApiKeyLabelError>)
        ensures
            view_outcome(r) == Self::spec_parse(input@),
    {
        match check_text(input, Self::MAX_LEN) {
            Ok(t) => Ok(ApiKeyLabel(t.to_owned())),
            Err(TextFault::Empty) => Err(ApiKeyLabelError::Empty),
            Err(TextFault::TooLong(len)) => Err(ApiKeyLabelError::TooLong { len }),
        }
    }

    /// The text.
    pub fn as_str(&self) -> (r: &str)
        ensures
            r@ == self@,
    {
        self.0.as_str()
    }
}

/// Status of a key.
#[derive(Debug, Clone, Copy, PartialEq, Eq, Structural)]
pub enum ApiKeyStatus {
    /// In force: it opens the open API.
    Active,
    /// Revoked by the owner.
    Revoked,
}

impl ApiKeyStatus {
    /// Whether it is in force (and so authenticates and may be revoked).
    pub fn is_active(self) -> (r: bool)
        ensures
            r == (self is Active),
    {
        match self {
            ApiKeyStatus::Active => true,
            ApiKeyStatus::Revoked => false,
        }
    }

    pub open spec fn spec_as_str(self) -> Seq<char> {
        match self {
            ApiKeyStatus::Active => "active"@,
            ApiKeyStatus::Revoked => "revoked"@,
        }
    }

    /// The canonical text.
    pub fn as_str(self) -> (r: &'static str)
        ensures
            r@ == self.spec_as_str(),
    {
        match self {
            ApiKeyStatus::Active => "active",
            ApiKeyStatus::Revoked => "revoked",
        }
    }
}

/// Marker of the typed [`ApiKeyId`].
#[derive(Debug, Clone, Copy, PartialEq, Eq, Hash)]
pub struct ApiKeyMarker;

/// Identifier of an API key.
pub type ApiKeyId = Id<ApiKeyMarker>;

/// What an API key is, in mathematical terms.
pub struct ApiKeyView {
    pub id: ApiKeyId,
    pub owner: UserId,
    pub label: Seq<char>,
    pub hash: Seq<char>,
    pub status: ApiKeyStatus,
    pub created_at: Timestamp,
}

/// An API key: the root of the openapi aggregate. Issued only to a verified
/// owner; only the owner revokes it. It keeps the hash of the secret, never the
/// secret.
#[derive(Clone)]
pub struct ApiKey {
    id: ApiKeyId,
    owner: UserId,
    label: ApiKeyLabel,
    hash: ApiKeyHash,
    status: ApiKeyStatus,
    created_at: Timestamp,
}

impl View for ApiKey {
    type V = ApiKeyView;

    closed spec fn view(&self) -> ApiKeyView {
        ApiKeyView {
            id: self.id,
            owner: self.owner,
            label: self.label@,
            hash: self.hash@,
            status: self.status,
            created_at: self.created_at,
        }
    }
}

/// Event: an API key was issued.
#[derive(Debug, Clone)]
pub struct ApiKeyIssued {
    pub key: ApiKeyId,
    pub owner: UserId,
}

/// Event: an API key was revoked.
#[derive(Debug, Clone)]
pub struct ApiKeyRevoked {
    pub key: ApiKeyId,
}

/// A breach of the openapi rules.
#[derive(Debug, Clone, PartialEq, Eq, Structural)]
pub enum OpenApiError {
    /// Only the verified may issue keys.
    NotVerified,
    /// Only the owner may revoke a key.
    NotOwner,
    /// The key is already revoked.
    AlreadyRevoked,
}

/// Why a revocation by `actor` is refused, if it is.
pub open spec fn revoke_error(key: ApiKeyView, actor: UserId) -> Option<OpenApiError> {
    if actor != key.owner {
        Some(OpenApiError::NotOwner)
    } else if !(key.status is Active) {
        Some(OpenApiError::AlreadyRevoked)
    } else {
        None
    }
}

impl ApiKey {
    /// Issue a key. The owner must be verified; the hash comes ready from the
    /// boundary.
    pub fn issue(id: ApiKeyId, owner: UserId, verified: VerifiedStatus, label: ApiKeyLabel, hash: ApiKeyHash, now: Timestamp) -> (r: Result<(Self, ApiKeyIssued), OpenApiError>)
        ensures
            match r {
                Ok((key, event)) => {
                    &&& verified is Verified
                    &&& key@ == (ApiKeyView {
                        id,
                        owner,
                        label: label@,
                        hash: hash@,
                        status: ApiKeyStatus::Active,
                        created_at: now,
                    })
                    &&& event.key == id
                    &&& event.owner == owner
                },
                Err(e) => verified is Casual && e == OpenApiError::NotVerified,
            },
    {
        if !verified.is_verified() {
            return Err(OpenApiError::NotVerified);
        }
        let key = ApiKey { id, owner, label, hash, status: ApiKeyStatus::Active, created_at: now };
        let event = ApiKeyIssued { key: id, owner };
        Ok((key, event))
    }

    /// Revoke the key (only the owner, only while in force).
    pub fn revoke(&mut self, actor: UserId) -> (r: Result<ApiKeyRevoked, OpenApiError>)
        ensures
            match r {
                Ok(event) => {
                    &&& revoke_error(old(self)@, actor) is None
                    &&& final(self)@ == (ApiKeyView { status: ApiKeyStatus::Revoked, ..old(self)@ })
                    &&& event.key == old(self)@.id
                },
                Err(e) => {
                    &&& revoke_error(old(self)@, actor) == Some(e)
                    &&& final(self)@ == old(self)@
                },
            },
    {
        if actor != self.owner {
            return Err(OpenApiError::NotOwner);
        }
        if !self.status.is_active() {
            return Err(OpenApiError::AlreadyRevoked);
        }
        self.status = ApiKeyStatus::Revoked;
        Ok(ApiKeyRevoked { key: self.id })
    }

    /// Rebuild the aggregate from storage.
    pub fn reconstitute(id: ApiKeyId, owner: UserId, label: ApiKeyLabel, hash: ApiKeyHash, status: ApiKeyStatus, created_at: Timestamp) -> (r: Self)
        ensures
            r@ == (ApiKeyView { id, owner, label: label@, hash: hash@, status, created_at }),
    {
        ApiKey { id, owner, label, hash, status, created_at }
    }

    pub fn id(&self) -> (r: ApiKeyId)
        ensures
            r == self@.id,
    {
        self.id
    }

    pub fn owner(&self) -> (r: UserId)
        ensures
            r == self@.owner,
    {
        self.owner
    }

    pub fn label(&self) -> (r: &ApiKeyLabel)
        ensures
            r@ == self@.label,
    {
        &self.label
    }

    pub fn hash(&self) -> (r: &ApiKeyHash)
        ensures
            r@ == self@.hash,
    {
        &self.hash
    }

    pub fn status(&self) -> (r: ApiKeyStatus)
        ensures
            r == self@.status,
    {
        self.status
    }

    pub fn created_at(&self) -> (r: Timestamp)
        ensures
            r == self@.created_at,
    {
        self.created_at
    }
}

/// Law: a revoked key stays revoked; every further revocation is refused,
/// whoever asks.
pub proof fn law_revoked_key_is_final(key: ApiKeyView, actor: UserId)
    requires
        !(key.status is Active),
    ensures
        revoke_error(key, actor) is Some,
{
}

/// Law: a parsed key label parses to itself, so that the text that is stored is
/// what loading reads back.
pub proof fn law_api_key_label_parse_idempotent(input: Seq<char>)
    requires
        ApiKeyLabel::spec_parse(input) is Ok,
    ensures
        ApiKeyLabel::spec_parse(ApiKeyLabel::spec_parse(input)->Ok_0) == ApiKeyLabel::spec_parse(input),
{
    lemma_trim_idempotent(input);
}

impl ApiKeyTokenError {
    /// The text of the error, as a reader sees it.
    pub open spec fn spec_message(self) -> Seq<char> {
        match self {
            ApiKeyTokenError::WrongLength { len } => "неверная длина API-ключа: "@
                + decimal_seq(len as nat)
                + " символов"@,
            ApiKeyTokenError::InvalidChar(c) => "недопустимый символ в API-ключе: "@
                + spec_char_debug(c),
        }
    }

    /// The text of the error, as a reader sees it.
    pub fn message(&self) -> (r: String)
        ensures
            r@ == self.spec_message(),
    {
        match self {
            ApiKeyTokenError::WrongLength { len } => {
                let mut s = "неверная длина API-ключа: ".to_owned();
                s.push_str(decimal(*len as u128).as_str());
                s.push_str(" символов");
                s
            },
            ApiKeyTokenError::InvalidChar(c) => {
                let mut s = "недопустимый символ в API-ключе: ".to_owned();
                s.push_str(char_debug(*c).as_str());
                s
            },
        }
    }
}

impl ApiKeyLabelError {
    /// The text of the error, as a reader sees it.
    pub open spec fn spec_message(self) -> Seq<char> {
        match self {
            ApiKeyLabelError::Empty => "метка ключа пустая"@,
            ApiKeyLabelError::TooLong { len } => "метка ключа слишком длинная: "@
                + decimal_seq(len as nat)
                + " символов (максимум 80)"@,
        }
    }

    /// The text of the error, as a reader sees it.
    pub fn message(&self) -> (r: String)
        ensures
            r@ == self.spec_message(),
    {
        match self {
            ApiKeyLabelError::Empty => "метка ключа пустая".to_owned(),
            ApiKeyLabelError::TooLong { len } => {
                let mut s = "метка ключа слишком длинная: ".to_owned();
                s.push_str(decimal(*len as u128).as_str());
                s.push_str(" символов (максимум 80)");
                s
            },
        }
    }
}

impl OpenApiError {
    /// The text of the error, as a reader sees it.
    pub open spec fn spec_message(self) -> Seq<char> {
        match self {
            OpenApiError::NotVerified => "открытое API доступно только верифицированным"@,
            OpenApiError::NotOwner => "отозвать ключ может только владелец"@,
            OpenApiError::AlreadyRevoked => "ключ уже отозван"@,
        }
    }

    /// The text of the error, as a reader sees it.
    pub fn message(&self) -> (r: String)
        ensures
            r@ == self.spec_message(),
    {
        match self {
            OpenApiError::NotVerified => "открытое API доступно только верифицированным".to_owned(),
            OpenApiError::NotOwner => "отозвать ключ может только владелец".to_owned(),
            OpenApiError::AlreadyRevoked => "ключ уже отозван".to_owned(),
        }
    }
}

} // verus!
