//! Value objects of the identity context. The invariant lives in the constructor
//! ([`Handle::parse`] and the like): an invalid value cannot be built.

use vstd::prelude::*;

use crate::text::{
    alnum_rule, char_debug, chars_of, decimal, decimal_seq, first_bad, first_bad_alnum_char,
    first_bad_slug_char, lemma_first_bad_some, lemma_slug_is_normal, lemma_trim_idempotent,
    lower_seq, slug_rule, spec_char_debug, to_ascii_lowercase, trim, trim_seq, view_outcome,
};

use super::invite::MAX_ACTIVE_INVITES;

verus! {

/// A user's unique @-handle. Normalized to lowercase; 3..=20 characters, starts
/// with a Latin letter, then `[a-z0-9_]`.
#[derive(Debug, PartialEq, Eq, Hash)]
pub struct Handle(String);

impl Clone for Handle {
    fn clone(&self) -> (r: Self)
        ensures
            r@ == self@,
    {
        Handle(self.0.clone())
    }
}

impl View for Handle {
    type V = Seq<char>;

    closed spec fn view(&self) -> Seq<char> {
        self.0@
    }
}

/// A breach of the [`Handle`] rules.
#[derive(Debug, Clone, PartialEq, Eq, Structural)]
pub enum HandleError {
    Empty,
    TooShort { len: usize },
    TooLong { len: usize },
    InvalidStart,
    InvalidChar(char),
}

impl Handle {
    /// Minimum handle length.
    pub const MIN_LEN: usize = 3;

    /// Maximum handle length.
    pub const MAX_LEN: usize = 20;

    /// What [`Handle::parse`] gives for a text: the normalized handle or the
    /// first rule it breaks.
    pub open spec fn spec_parse(input: Seq<char>) -> Result<Seq<char>, HandleError> {
        let n = lower_seq(trim_seq(input));
        if n.len() == 0 {
            Err(HandleError::Empty)
        } else if n.len() < 3 {
            Err(HandleError::TooShort { len: n.len() as usize })
        } else if n.len() > 20 {
            Err(HandleError::TooLong { len: n.len() as usize })
        } else {
            match first_bad(n, slug_rule(), 0) {
                Some(k) => if k == 0 {
                    Err(HandleError::InvalidStart)
                } else {
                    Err(HandleError::InvalidChar(n[k as int]))
                },
                None => Ok(n),
            }
        }
    }

    /// Parse and normalize a handle.
    pub fn parse(input: &str) -> (r: Result<Self, HandleError>)
        ensures
            view_outcome(r) == Self::spec_parse(input@),
    {
        let normalized = to_ascii_lowercase(trim(input));
        let chars = chars_of(normalized.as_str());
        let len = chars.len();
        if len == 0 {
            return Err(HandleError::Empty);
        }
        if len < Self::MIN_LEN {
            return Err(HandleError::TooShort { len });
        }
        if len > Self::MAX_LEN {
            return Err(HandleError::TooLong { len });
        }
        let bad = first_bad_slug_char(&chars);
        proof {
            if first_bad(chars@, slug_rule(), 0) is Some {
                lemma_first_bad_some(chars@, slug_rule(), 0);
            }
        }
        match bad {
            Some(i) => {
                if i == 0 {
                    Err(HandleError::InvalidStart)
                } else {
                    Err(HandleError::InvalidChar(chars[i]))
                }
            },
            None => Ok(Handle(normalized)),
        }
    }

    /// The normalized text.
    pub fn as_str(&self) -> (r: &str)
        ensures
            r@ == self@,
    {
        self.0.as_str()
    }
}

/// An invitation code. 8..=32 characters, ASCII alphanumeric, case-sensitive.
/// The code itself is generated at the boundary and validated here.
#[derive(Debug, PartialEq, Eq, Hash)]
pub struct InviteCode(String);

impl Clone for InviteCode {
    fn clone(&self) -> (r: Self)
        ensures
            r@ == self@,
    {
        InviteCode(self.0.clone())
    }
}

impl View for InviteCode {
    type V = Seq<char>;

    closed spec fn view(&self) -> Seq<char> {
        self.0@
    }
}

/// A breach of the [`InviteCode`] rules.
#[derive(Debug, Clone, PartialEq, Eq, Structural)]
pub enum InviteCodeError {
    WrongLength { len: usize },
    InvalidChar(char),
}

impl InviteCode {
    /// Minimum code length.
    pub const MIN_LEN: usize = 8;

    /// Maximum code length.
    pub const MAX_LEN: usize = 32;

    /// What [`InviteCode::parse`] gives for a text.
    pub open spec fn spec_parse(input: Seq<char>) -> Result<Seq<char>, InviteCodeError> {
        let t = trim_seq(input);
        if !(8 <= t.len() <= 32) {
            Err(InviteCodeError::WrongLength { len: t.len() as usize })
        } else {
            match first_bad(t, alnum_rule(), 0) {
                Some(k) => Err(InviteCodeError::InvalidChar(t[k as int])),
                None => Ok(t),
            }
        }
    }

    /// Parse an invitation code.
    pub fn parse(input: &str) -> (r: Result<Self, InviteCodeError>)
        ensures
            view_outcome(r) == Self::spec_parse(input@),
    {
        let code = trim(input);
        let chars = chars_of(code);
        let len = chars.len();
        if !(Self::MIN_LEN <= len && len <= Self::MAX_LEN) {
            return Err(InviteCodeError::WrongLength { len });
        }
        let bad = first_bad_alnum_char(&chars);
        proof {
            if first_bad(chars@, alnum_rule(), 0) is Some {
                lemma_first_bad_some(chars@, alnum_rule(), 0);
            }
        }
        match bad {
            Some(i) => Err(InviteCodeError::InvalidChar(chars[i])),
            None => Ok(InviteCode(code.to_owned())),
        }
    }

    /// The code text.
    pub fn as_str(&self) -> (r: &str)
        ensures
            r@ == self@,
    {
        self.0.as_str()
    }
}

/// Quota of active invites. Limited for an ordinary user, none for an admin.
#[derive(Debug, Clone, Copy, PartialEq, Eq, Structural)]
pub enum InviteQuota {
    /// At most this many invites active at once.
    Limited(u32),
    /// No limit (admin).
    Unlimited,
}

impl InviteQuota {
    pub open spec fn spec_allows(self, active_count: u32) -> bool {
        match self {
            InviteQuota::Unlimited => true,
            InviteQuota::Limited(max) => active_count < max,
        }
    }

    /// Whether one more invite may be issued at this count of active ones.
    pub fn allows(self, active_count: u32) -> (r: bool)
        ensures
            r == self.spec_allows(active_count),
    {
        match self {
            InviteQuota::Unlimited => true,
            InviteQuota::Limited(max) => active_count < max,
        }
    }

    /// Whether the issuance cooldown applies to this quota (not to an admin's).
    pub fn enforces_cooldown(self) -> (r: bool)
        ensures
            r == (self is Limited),
    {
        match self {
            InviteQuota::Limited(_) => true,
            InviteQuota::Unlimited => false,
        }
    }

    /// The numeric limit, if any.
    pub fn limit(self) -> (r: Option<u32>)
        ensures
            r == (match self {
                InviteQuota::Limited(max) => Some(max),
                InviteQuota::Unlimited => None::<u32>,
            }),
    {
        match self {
            InviteQuota::Limited(max) => Some(max),
            InviteQuota::Unlimited => None,
        }
    }
}

/// Verification status: the key to the privileged areas (market, music, open API).
#[derive(Debug, Clone, Copy, PartialEq, Eq, Structural)]
pub enum VerifiedStatus {
    /// Ordinary user: feed, profile, messages.
    Casual,
    /// Verified: the privileged areas are open.
    Verified,
}

impl VerifiedStatus {
    /// Whether the user is verified.
    pub fn is_verified(self) -> (r: bool)
        ensures
            r == (self is Verified),
    {
        match self {
            VerifiedStatus::Verified => true,
            VerifiedStatus::Casual => false,
        }
    }
}

/// A new user is not verified.
impl Default for VerifiedStatus {
    fn default() -> (r: Self)
        ensures
            r == VerifiedStatus::Casual,
    {
        VerifiedStatus::Casual
    }
}

/// A user's role. It sets the invite quota.
#[derive(Debug, Clone, Copy, PartialEq, Eq, Structural)]
pub enum UserRole {
    /// Rank-and-file member.
    Member,
    /// Administrator: no invite limit and no cooldown.
    Admin,
}

/// A new user is a rank-and-file member.
impl Default for UserRole {
    fn default() -> (r: Self)
        ensures
            r == UserRole::Member,
    {
        UserRole::Member
    }
}

impl UserRole {
    pub open spec fn spec_invite_quota(self) -> InviteQuota {
        match self {
            UserRole::Member => InviteQuota::Limited(MAX_ACTIVE_INVITES),
            UserRole::Admin => InviteQuota::Unlimited,
        }
    }

    /// The invite quota of the role.
    pub fn invite_quota(self) -> (r: InviteQuota)
        ensures
            r == self.spec_invite_quota(),
    {
        match self {
            UserRole::Member => InviteQuota::Limited(MAX_ACTIVE_INVITES),
            UserRole::Admin => InviteQuota::Unlimited,
        }
    }
}

/// Law: a normalized handle parses back to itself, so that parsing is
/// idempotent (what is stored is what loading reads).
pub proof fn law_handle_parse_idempotent(input: Seq<char>)
    requires
        Handle::spec_parse(input) is Ok,
    ensures
        Handle::spec_parse(Handle::spec_parse(input)->Ok_0) == Handle::spec_parse(input),
{
    let n = lower_seq(trim_seq(input));
    lemma_slug_is_normal(n);
}

/// Law: a parsed invite code parses to itself, so that the text that is stored is
/// what loading reads back.
pub proof fn law_invite_code_parse_idempotent(input: Seq<char>)
    requires
        InviteCode::spec_parse(input) is Ok,
    ensures
        InviteCode::spec_parse(InviteCode::spec_parse(input)->Ok_0) == InviteCode::spec_parse(input),
{
    lemma_trim_idempotent(input);
}

impl HandleError {
    /// The text of the error, as a reader sees it.
    pub open spec fn spec_message(self) -> Seq<char> {
        match self {
            HandleError::Empty => "handle пустой"@,
            HandleError::TooShort { len } => "handle слишком короткий: "@
                + decimal_seq(len as nat)
                + " символов"@,
            HandleError::TooLong { len } => "handle слишком длинный: "@
                + decimal_seq(len as nat)
                + " символов"@,
            HandleError::InvalidStart => "handle должен начинаться с латинской буквы"@,
            HandleError::InvalidChar(c) => "недопустимый символ в handle: "@ + spec_char_debug(c),
        }
    }

    /// The text of the error, as a reader sees it.
    pub fn message(&self) -> (r: String)
        ensures
            r@ == self.spec_message(),
    {
        match self {
            HandleError::Empty => "handle пустой".to_owned(),
            HandleError::TooShort { len } => {
                let mut s = "handle слишком короткий: ".to_owned();
                s.push_str(decimal(*len as u128).as_str());
                s.push_str(" символов");
                s
            },
            HandleError::TooLong { len } => {
                let mut s = "handle слишком длинный: ".to_owned();
                s.push_str(decimal(*len as u128).as_str());
                s.push_str(" символов");
                s
            },
            HandleError::InvalidStart => "handle должен начинаться с латинской буквы".to_owned(),
            HandleError::InvalidChar(c) => {
                let mut s = "недопустимый символ в handle: ".to_owned();
                s.push_str(char_debug(*c).as_str());
                s
            },
        }
    }
}

impl InviteCodeError {
    /// The text of the error, as a reader sees it.
    pub open spec fn spec_message(self) -> Seq<char> {
        match self {
            InviteCodeError::WrongLength { len } => "неверная длина кода приглашения: "@
                + decimal_seq(len as nat)
                + " символов"@,
            InviteCodeError::InvalidChar(c) => "недопустимый символ в коде приглашения: "@
                + spec_char_debug(c),
        }
    }

    /// The text of the error, as a reader sees it.
    pub fn message(&self) -> (r: String)
        ensures
            r@ == self.spec_message(),
    {
        match self {
            InviteCodeError::WrongLength { len } => {
                let mut s = "неверная длина кода приглашения: ".to_owned();
                s.push_str(decimal(*len as u128).as_str());
                s.push_str(" символов");
                s
            },
            InviteCodeError::InvalidChar(c) => {
                let mut s = "недопустимый символ в коде приглашения: ".to_owned();
                s.push_str(char_debug(*c).as_str());
                s
            },
        }
    }
}

} // verus!
