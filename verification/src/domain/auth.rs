//! The auth context: credentials and sessions. Identity says who you are
//! (`User`/`Handle`); auth says how you prove it (password and session).
//!
//! Hashing a password and generating a token are heavy, nondeterministic
//! operations; they stand at the boundary and a ready [`PasswordHash`] or
//! [`SessionToken`] comes in here. The domain keeps the password policy, the
//! session lifetime and the token format.

use vstd::prelude::*;

use crate::domain::identity::UserId;
use crate::shared::id::Id;
use crate::shared::time::{nanos_per_second, timestamp_in_range, Duration, Timestamp};
use crate::text::{
    char_debug, chars_of, decimal, decimal_seq, first_bad, first_bad_token_char,
    lemma_first_bad_some, spec_char_debug, token_rule, view_outcome,
};

verus! {

/// A raw password from the boundary. Never stored nor logged; it only goes to
/// the password hasher. The length rule lives in [`Password::parse`].
pub struct Password(String);

impl View for Password {
    type V = Seq<char>;

    closed spec fn view(&self) -> Seq<char> {
        self.0@
    }
}

impl Password {
    /// A password always keeps the length rule of [`Password::parse`].
    #[verifier::type_invariant]
    closed spec fn inv(self) -> bool {
        8 <= self.0@.len() <= 200
    }
}

impl Clone for Password {
    fn clone(&self) -> (r: Self)
        ensures
            r@ == self@,
    {
        proof {
            use_type_invariant(self);
        }
        Password(self.0.clone())
    }
}

/// A breach of the password policy.
#[derive(Debug, Clone, PartialEq, Eq, Structural)]
pub enum PasswordError {
    TooShort { len: usize },
    TooLong { len: usize },
}

impl Password {
    /// Minimum password length.
    pub const MIN_LEN: usize = 8;

    /// Maximum password length (guards the hashing against abuse).
    pub const MAX_LEN: usize = 200;

    /// What [`Password::parse`] gives for a text. Spaces are kept: they are
    /// part of the password.
    pub open spec fn spec_parse(input: Seq<char>) -> Result<Seq<char>, PasswordError> {
        if input.len() < 8 {
            Err(PasswordError::TooShort { len: input.len() as usize })
        } else if input.len() > 200 {
            Err(PasswordError::TooLong { len: input.len() as usize })
        } else {
            Ok(input)
        }
    }

    /// Check the password policy.
    pub fn parse(input: &str) -> (r: Result<Self, PasswordError>)
        ensures
            view_outcome(r) == Self::spec_parse(input@),
    {
        let len = input.unicode_len();
        if len < Self::MIN_LEN {
            return Err(PasswordError::TooShort { len });
        }
        if len > Self::MAX_LEN {
            return Err(PasswordError::TooLong { len });
        }
        Ok(Password(input.to_owned()))
    }

    /// The value, for hashing. Called only by the password hasher.
    pub fn expose(&self) -> (r: &str)
        ensures
            r@ == self@,
            8 <= r@.len() <= 200,
    {
        proof {
            use_type_invariant(self);
        }
        self.0.as_str()
    }

    /// What the debug output shows: the secret is hidden.
    pub fn debug_string(&self) -> (r: String)
        ensures
            r@ == "Password(***)"@,
    {
        "Password(***)".to_owned()
    }
}

/// A password hash (such as an argon2 PHC string). Opaque to the domain; its
/// only legitimate source is the password hasher.
#[derive(PartialEq, Eq)]
pub struct PasswordHash(String);

impl View for PasswordHash {
    type V = Seq<char>;

    closed spec fn view(&self) -> Seq<char> {
        self.0@
    }
}

impl Clone for PasswordHash {
    fn clone(&self) -> (r: Self)
        ensures
            r@ == self@,
    {
        PasswordHash(self.0.clone())
    }
}

impl PasswordHash {
    /// Wrap a ready hash (from the hasher, or from storage).
    pub fn from_storage(value: String) -> (r: Self)
        ensures
            r@ == value@,
    {
        PasswordHash(value)
    }

    /// The text, for storing and checking.
    pub fn as_str(&self) -> (r: &str)
        ensures
            r@ == self@,
    {
        self.0.as_str()
    }

    /// What the debug output shows: the hash is hidden.
    pub fn debug_string(&self) -> (r: String)
        ensures
            r@ == "PasswordHash(***)"@,
    {
        "PasswordHash(***)".to_owned()
    }
}

/// The opaque session secret that the client holds (cookie or Bearer). High
/// entropy, generated at the boundary.
#[derive(PartialEq, Eq, Hash)]
pub struct SessionToken(String);

impl View for SessionToken {
    type V = Seq<char>;

    closed spec fn view(&self) -> Seq<char> {
        self.0@
    }
}

impl Clone for SessionToken {
    fn clone(&self) -> (r: Self)
        ensures
            r@ == self@,
    {
        SessionToken(self.0.clone())
    }
}

/// A breach of the [`SessionToken`] rules.
#[derive(Debug, Clone, PartialEq, Eq, Structural)]
pub enum SessionTokenError {
    WrongLength { len: usize },
    InvalidChar(char),
}

impl SessionToken {
    /// Minimum length (32 URL-safe characters).
    pub const MIN_LEN: usize = 32;

    /// Maximum length: longer input is refused as junk.
    pub const MAX_LEN: usize = 128;

    /// What [`SessionToken::parse`] gives for a text.
    pub open spec fn spec_parse(input: Seq<char>) -> Result<Seq<char>, SessionTokenError> {
        if !(32 <= input.len() <= 128) {
            Err(SessionTokenError::WrongLength { len: input.len() as usize })
        } else {
            match first_bad(input, token_rule(), 0) {
                Some(k) => Err(SessionTokenError::InvalidChar(input[k as int])),
                None => Ok(input),
            }
        }
    }

    /// Parse a token: URL-safe alphabet `A-Za-z0-9-_`, length in
    /// `MIN_LEN..=MAX_LEN`.
    pub fn parse(input: &str) -> (r: Result<Self, SessionTokenError>)
        ensures
            view_outcome(r) == Self::spec_parse(input@),
    {
        let chars = chars_of(input);
        let len = chars.len();
        if !(Self::MIN_LEN <= len && len <= Self::MAX_LEN) {
            return Err(SessionTokenError::WrongLength { len });
        }
        let bad = first_bad_token_char(&chars);
        proof {
            if first_bad(chars@, token_rule(), 0) is Some {
                lemma_first_bad_some(chars@, token_rule(), 0);
            }
        }
        match bad {
            Some(i) => Err(SessionTokenError::InvalidChar(chars[i])),
            None => Ok(SessionToken(input.to_owned())),
        }
    }

    /// The token text.
    pub fn as_str(&self) -> (r: &str)
        ensures
            r@ == self@,
    {
        self.0.as_str()
    }

    /// What the debug output shows: the secret is hidden.
    pub fn debug_string(&self) -> (r: String)
        ensures
            r@ == "SessionToken(***)"@,
    {
        "SessionToken(***)".to_owned()
    }
}

/// What credentials are, in mathematical terms.
pub struct CredentialView {
    pub user: UserId,
    pub hash: Seq<char>,
    pub established_at: Timestamp,
}

/// A user's credentials, one record per user. Only the hash is kept.
#[derive(Clone)]
pub struct Credential {
    user: UserId,
    hash: PasswordHash,
    established_at: Timestamp,
}

impl View for Credential {
    type V = CredentialView;

    closed spec fn view(&self) -> CredentialView {
        CredentialView { user: self.user, hash: self.hash@, established_at: self.established_at }
    }
}

impl Credential {
    /// Establish (or overwrite) credentials; the hash comes ready from the boundary.
    pub fn establish(user: UserId, hash: PasswordHash, now: Timestamp) -> (r: Self)
        ensures
            r@ == (CredentialView { user, hash: hash@, established_at: now }),
    {
        Credential { user, hash, established_at: now }
    }

    pub fn user(&self) -> (r: UserId)
        ensures
            r == self@.user,
    {
        self.user
    }

    pub fn hash(&self) -> (r: &PasswordHash)
        ensures
            r@ == self@.hash,
    {
        &self.hash
    }

    pub fn established_at(&self) -> (r: Timestamp)
        ensures
            r == self@.established_at,
    {
        self.established_at
    }
}

/// Marker of the typed [`SessionId`].
#[derive(Debug, Clone, Copy, PartialEq, Eq, Hash)]
pub struct SessionMarker;

/// Identifier of a session.
pub type SessionId = Id<SessionMarker>;

/// The default session lifetime, in nanoseconds: thirty days.
pub open spec fn session_ttl_nanos() -> int {
    30 * 86400 * nanos_per_second()
}

/// The default session lifetime: thirty days.
pub fn session_ttl() -> (r: Duration)
    ensures
        r@ == session_ttl_nanos(),
{
    Duration::days(30)
}

/// What a session is, in mathematical terms.
pub struct SessionView {
    pub id: SessionId,
    pub token: Seq<char>,
    pub user: UserId,
    pub issued_at: Timestamp,
    pub expires_at: Timestamp,
}

/// A session: access issued by a login. The client presents its
/// [`SessionToken`]; expiry is a domain rule ([`Session::is_active`]).
#[derive(Clone)]
pub struct Session {
    id: SessionId,
    token: SessionToken,
    user: UserId,
    issued_at: Timestamp,
    expires_at: Timestamp,
}

impl View for Session {
    type V = SessionView;

    closed spec fn view(&self) -> SessionView {
        SessionView {
            id: self.id,
            token: self.token@,
            user: self.user,
            issued_at: self.issued_at,
            expires_at: self.expires_at,
        }
    }
}

/// Event: a session was issued.
#[derive(Debug, Clone)]
pub struct SessionIssued {
    pub session: SessionId,
    pub user: UserId,
    pub expires_at: Timestamp,
}

impl Session {
    /// Issue a session for `ttl` from `now`. The id and the token come from the
    /// boundary; the domain fixes the moment of expiry, which must lie in the
    /// supported calendar range.
    pub fn issue(id: SessionId, token: SessionToken, user: UserId, now: Timestamp, ttl: Duration) -> (r: (Self, SessionIssued))
        requires
            timestamp_in_range(now@ + ttl@),
        ensures
            r.0@ == (SessionView {
                id,
                token: token@,
                user,
                issued_at: now,
                expires_at: r.0@.expires_at,
            }),
            r.0@.expires_at@ == now@ + ttl@,
            r.1.session == id,
            r.1.user == user,
            r.1.expires_at == r.0@.expires_at,
    {
        let expires_at = now.plus(ttl);
        let session = Session { id, token, user, issued_at: now, expires_at };
        let event = SessionIssued { session: id, user, expires_at };
        (session, event)
    }

    /// Whether the session is still active at `now` (not yet expired).
    pub fn is_active(&self, now: Timestamp) -> (r: bool)
        ensures
            r == (now@ < self@.expires_at@),
    {
        now.is_before(self.expires_at)
    }

    pub fn id(&self) -> (r: SessionId)
        ensures
            r == self@.id,
    {
        self.id
    }

    pub fn token(&self) -> (r: &SessionToken)
        ensures
            r@ == self@.token,
    {
        &self.token
    }

    pub fn user(&self) -> (r: UserId)
        ensures
            r == self@.user,
    {
        self.user
    }

    pub fn issued_at(&self) -> (r: Timestamp)
        ensures
            r == self@.issued_at,
    {
        self.issued_at
    }

    pub fn expires_at(&self) -> (r: Timestamp)
        ensures
            r == self@.expires_at,
    {
        self.expires_at
    }
}

/// An error of the auth context. It does not tell "no such user" from "wrong
/// password" (against enumeration): both are [`AuthError::InvalidCredentials`].
#[derive(Debug, Clone, PartialEq, Eq, Structural)]
pub enum AuthError {
    /// The login failed: no such user or a wrong password.
    InvalidCredentials,
    /// No valid session (no token, an invalid one, or an expired one).
    Unauthenticated,
}

impl PasswordError {
    /// The text of the error, as a reader sees it.
    pub open spec fn spec_message(self) -> Seq<char> {
        match self {
            PasswordError::TooShort { len } => "пароль слишком короткий: "@
                + decimal_seq(len as nat)
                + " символов (минимум 8)"@,
            PasswordError::TooLong { len } => "пароль слишком длинный: "@
                + decimal_seq(len as nat)
                + " символов (максимум 200)"@,
        }
    }

    /// The text of the error, as a reader sees it.
    pub fn message(&self) -> (r: String)
        ensures
            r@ == self.spec_message(),
    {
        match self {
            PasswordError::TooShort { len } => {
                let mut s = "пароль слишком короткий: ".to_owned();
                s.push_str(decimal(*len as u128).as_str());
                s.push_str(" символов (минимум 8)");
                s
            },
            PasswordError::TooLong { len } => {
                let mut s = "пароль слишком длинный: ".to_owned();
                s.push_str(decimal(*len as u128).as_str());
                s.push_str(" символов (максимум 200)");
                s
            },
        }
    }
}

impl SessionTokenError {
    /// The text of the error, as a reader sees it.
    pub open spec fn spec_message(self) -> Seq<char> {
        match self {
            SessionTokenError::WrongLength { len } => "неверная длина токена сессии: "@
                + decimal_seq(len as nat)
                + " символов"@,
            SessionTokenError::InvalidChar(c) => "недопустимый символ в токене сессии: "@
                + spec_char_debug(c),
        }
    }

    /// The text of the error, as a reader sees it.
    pub fn message(&self) -> (r: String)
        ensures
            r@ == self.spec_message(),
    {
        match self {
            SessionTokenError::WrongLength { len } => {
                let mut s = "неверная длина токена сессии: ".to_owned();
                s.push_str(decimal(*len as u128).as_str());
                s.push_str(" символов");
                s
            },
            SessionTokenError::InvalidChar(c) => {
                let mut s = "недопустимый символ в токене сессии: ".to_owned();
                s.push_str(char_debug(*c).as_str());
                s
            },
        }
    }
}

impl AuthError {
    /// The text of the error, as a reader sees it.
    pub open spec fn spec_message(self) -> Seq<char> {
        match self {
            AuthError::InvalidCredentials => "неверные учётные данные"@,
            AuthError::Unauthenticated => "требуется аутентификация"@,
        }
    }

    /// The text of the error, as a reader sees it.
    pub fn message(&self) -> (r: String)
        ensures
            r@ == self.spec_message(),
    {
        match self {
            AuthError::InvalidCredentials => "неверные учётные данные".to_owned(),
            AuthError::Unauthenticated => "требуется аутентификация".to_owned(),
        }
    }
}

} // verus!
