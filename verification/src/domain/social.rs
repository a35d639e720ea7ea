//! The social context: a user's profile (display name, subculture, bio).

use vstd::prelude::*;

use crate::domain::identity::UserId;
use crate::text::{
    chars_of, check_text, decimal, decimal_seq, first_bad, has_control_char, lemma_lower_trim_plain,
    lemma_trim_idempotent, lower_seq, printable_rule, str_eq, text_fault, to_ascii_lowercase, trim,
    trim_seq, view_outcome, TextFault,
};

verus! {

/// Display name: 1..=50 characters after trimming, no control characters.
#[derive(Debug, PartialEq, Eq)]
pub struct DisplayName(String);

impl View for DisplayName {
    type V = Seq<char>;

    closed spec fn view(&self) -> Seq<char> {
        self.0@
    }
}

impl Clone for DisplayName {
    fn clone(&self) -> (r: Self)
        ensures
            r@ == self@,
    {
        DisplayName(self.0.clone())
    }
}

/// A breach of the [`DisplayName`] rules.
#[derive(Debug, Clone, PartialEq, Eq, Structural)]
pub enum DisplayNameError {
    Empty,
    TooLong { len: usize },
    ControlChar,
}

impl DisplayName {
    /// Maximum length, in characters.
    pub const MAX_LEN: usize = 50;

    /// What [`DisplayName::parse`] gives for a text: the trimmed text, or why it is
    /// refused.
    pub open spec fn spec_parse(input: Seq<char>) -> Result<Seq<char>, DisplayNameError> {
        match text_fault(input, 50) {
            Some(TextFault::Empty) => Err(DisplayNameError::Empty),
            Some(TextFault::TooLong(len)) => Err(DisplayNameError::TooLong { len }),
            None => if first_bad(trim_seq(input), printable_rule(), 0) is Some {
                Err(DisplayNameError::ControlChar)
            } else {
                Ok(trim_seq(input))
            },
        }
    }

    /// Parse: trimmed, 1..=`MAX_LEN` characters, no control characters.
    pub fn parse(input: &str) -> (r: Result<Self, DisplayNameError>)
        ensures
            view_outcome(r) == Self::spec_parse(input@),
    {
        match check_text(input, Self::MAX_LEN) {
            Ok(t) => {
                if has_control_char(&chars_of(t)) {
                    Err(DisplayNameError::ControlChar)
                } else {
                    Ok(DisplayName(t.to_owned()))
                }
            },
            Err(TextFault::Empty) => Err(DisplayNameError::Empty),
            Err(TextFault::TooLong(len)) => Err(DisplayNameError::TooLong { len }),
        }
    }

    /// The text.
    pub fn as_str(&self) -> (r: &str)
        ensures
            r@ == self@,
    {
        self.0.as_str()
    }
}

/// Subculture of a profile. The set is curated and grows in code.
#[derive(Debug, Clone, Copy, PartialEq, Eq, Structural)]
pub enum Subculture {
    Underground,
    Casual,
    Skin,
    HipHop,
}

/// The value is not in the known set of subcultures.
#[derive(Debug, Clone, Copy, PartialEq, Eq, Structural)]
pub struct SubcultureError;

impl Subculture {
    /// The canonical text of a subculture.
    pub open spec fn spec_as_str(self) -> Seq<char> {
        match self {
            Subculture::Underground => "underground"@,
            Subculture::Casual => "casual"@,
            Subculture::Skin => "skin"@,
            Subculture::HipHop => "hiphop"@,
        }
    }

    /// The canonical text.
    pub fn as_str(self) -> (r: &'static str)
        ensures
            r@ == self.spec_as_str(),
    {
        match self {
            Subculture::Underground => "underground",
            Subculture::Casual => "casual",
            Subculture::Skin => "skin",
            Subculture::HipHop => "hiphop",
        }
    }

    /// What [`Subculture::parse`] gives for a text (case-insensitive).
    pub open spec fn spec_parse(input: Seq<char>) -> Result<Subculture, SubcultureError> {
        let n = lower_seq(trim_seq(input));
        if n == "underground"@ {
            Ok(Subculture::Underground)
        } else if n == "casual"@ {
            Ok(Subculture::Casual)
        } else if n == "skin"@ {
            Ok(Subculture::Skin)
        } else if n == "hiphop"@ {
            Ok(Subculture::HipHop)
        } else {
            Err(SubcultureError)
        }
    }

    /// Parse from text, case-insensitively.
    pub fn parse(input: &str) -> (r: Result<Self, SubcultureError>)
        ensures
            r == Self::spec_parse(input@),
    {
        let n = to_ascii_lowercase(trim(input));
        if str_eq(n.as_str(), "underground") {
            Ok(Subculture::Underground)
        } else if str_eq(n.as_str(), "casual") {
            Ok(Subculture::Casual)
        } else if str_eq(n.as_str(), "skin") {
            Ok(Subculture::Skin)
        } else if str_eq(n.as_str(), "hiphop") {
            Ok(Subculture::HipHop)
        } else {
            Err(SubcultureError)
        }
    }
}

/// Profile bio: up to 280 characters, not empty (no bio is `None` in the profile).
#[derive(Debug, PartialEq, Eq)]
pub struct Bio(String);

impl View for Bio {
    type V = Seq<char>;

    closed spec fn view(&self) -> Seq<char> {
        self.0@
    }
}

impl Clone for Bio {
    fn clone(&self) -> (r: Self)
        ensures
            r@ == self@,
    {
        Bio(self.0.clone())
    }
}

/// A breach of the [`Bio`] rules.
#[derive(Debug, Clone, PartialEq, Eq, Structural)]
pub enum BioError {
    Empty,
    TooLong { len: usize },
}

impl Bio {
    /// Maximum length, in characters.
    pub const MAX_LEN: usize = 280;

    /// What [`Bio::parse`] gives for a text: the trimmed text, or why it is
    /// refused.
    pub open spec fn spec_parse(input: Seq<char>) -> Result<Seq<char>, BioError> {
        match text_fault(input, 280) {
            Some(TextFault::Empty) => Err(BioError::Empty),
            Some(TextFault::TooLong(len)) => Err(BioError::TooLong { len }),
            None => Ok(trim_seq(input)),
        }
    }

    /// Parse: trimmed, 1..=`MAX_LEN` characters.
    pub fn parse(input: &str) -> (r: Result<Self, BioError>)
        ensures
            view_outcome(r) == Self::spec_parse(input@),
    {
        match check_text(input, Self::MAX_LEN) {
            Ok(t) => Ok(Bio(t.to_owned())),
            Err(TextFault::Empty) => Err(BioError::Empty),
            Err(TextFault::TooLong(len)) => Err(BioError::TooLong { len }),
        }
    }

    /// The text.
    pub fn as_str(&self) -> (r: &str)
        ensures
            r@ == self@,
    {
        self.0.as_str()
    }
}

/// What a profile is, in mathematical terms.
pub struct ProfileView {
    pub user_id: UserId,
    pub display_name: Seq<char>,
    pub subculture: Subculture,
    pub bio: Option<Seq<char>>,
}

/// The view of an optional bio.
pub open spec fn bio_view(bio: Option<Bio>) -> Option<Seq<char>> {
    match bio {
        Some(b) => Some(b@),
        None => None,
    }
}

/// A user's profile, one per user: identified by [`UserId`].
#[derive(Debug, Clone, PartialEq, Eq)]
pub struct Profile {
    user_id: UserId,
    display_name: DisplayName,
    subculture: Subculture,
    bio: Option<Bio>,
}

impl View for Profile {
    type V = ProfileView;

    closed spec fn view(&self) -> ProfileView {
        ProfileView {
            user_id: self.user_id,
            display_name: self.display_name@,
            subculture: self.subculture,
            bio: bio_view(self.bio),
        }
    }
}

impl Profile {
    /// Create a profile (without a bio).
    pub fn create(user_id: UserId, display_name: DisplayName, subculture: Subculture) -> (r: Self)
        ensures
            r@ == (ProfileView { user_id, display_name: display_name@, subculture, bio: None }),
    {
        Profile { user_id, display_name, subculture, bio: None }
    }

    pub fn rename(&mut self, display_name: DisplayName)
        ensures
            final(self)@ == (ProfileView { display_name: display_name@, ..old(self)@ }),
    {
        self.display_name = display_name;
    }

    pub fn set_subculture(&mut self, subculture: Subculture)
        ensures
            final(self)@ == (ProfileView { subculture, ..old(self)@ }),
    {
        self.subculture = subculture;
    }

    pub fn set_bio(&mut self, bio: Option<Bio>)
        ensures
            final(self)@ == (ProfileView { bio: bio_view(bio), ..old(self)@ }),
    {
        self.bio = bio;
    }

    pub fn user_id(&self) -> (r: UserId)
        ensures
            r == self@.user_id,
    {
        self.user_id
    }

    pub fn display_name(&self) -> (r: &DisplayName)
        ensures
            r@ == self@.display_name,
    {
        &self.display_name
    }

    pub fn subculture(&self) -> (r: Subculture)
        ensures
            r == self@.subculture,
    {
        self.subculture
    }

    pub fn bio(&self) -> (r: Option<&Bio>)
        ensures
            match r {
                Some(b) => self@.bio == Some(b@),
                None => self@.bio is None,
            },
    {
        match &self.bio {
            Some(b) => Some(b),
            None => None,
        }
    }
}

/// Law: a subculture is read back from the text it is written as.
pub proof fn law_subculture_text_roundtrip(s: Subculture)
    ensures
        Subculture::spec_parse(s.spec_as_str()) == Ok::<Subculture, SubcultureError>(s),
{
    reveal_strlit("underground");
    reveal_strlit("casual");
    reveal_strlit("skin");
    reveal_strlit("hiphop");
    lemma_lower_trim_plain(s.spec_as_str());
}

/// Law: a parsed display name parses to itself, so that the text that is stored is
/// what loading reads back.
pub proof fn law_display_name_parse_idempotent(input: Seq<char>)
    requires
        DisplayName::spec_parse(input) is Ok,
    ensures
        DisplayName::spec_parse(DisplayName::spec_parse(input)->Ok_0) == DisplayName::spec_parse(input),
{
    lemma_trim_idempotent(input);
}

/// Law: a parsed bio parses to itself, so that the text that is stored is
/// what loading reads back.
pub proof fn law_bio_parse_idempotent(input: Seq<char>)
    requires
        Bio::spec_parse(input) is Ok,
    ensures
        Bio::spec_parse(Bio::spec_parse(input)->Ok_0) == Bio::spec_parse(input),
{
    lemma_trim_idempotent(input);
}

impl DisplayNameError {
    /// The text of the error, as a reader sees it.
    pub open spec fn spec_message(self) -> Seq<char> {
        match self {
            DisplayNameError::Empty => "отображаемое имя пустое"@,
            DisplayNameError::TooLong { len } => "отображаемое имя слишком длинное: "@
                + decimal_seq(len as nat)
                + " символов"@,
            DisplayNameError::ControlChar => "отображаемое имя содержит управляющие символы"@,
        }
    }

    /// The text of the error, as a reader sees it.
    pub fn message(&self) -> (r: String)
        ensures
            r@ == self.spec_message(),
    {
        match self {
            DisplayNameError::Empty => "отображаемое имя пустое".to_owned(),
            DisplayNameError::TooLong { len } => {
                let mut s = "отображаемое имя слишком длинное: ".to_owned();
                s.push_str(decimal(*len as u128).as_str());
                s.push_str(" символов");
                s
            },
            DisplayNameError::ControlChar => "отображаемое имя содержит управляющие символы".to_owned(),
        }
    }
}

impl SubcultureError {
    /// The text of the error, as a reader sees it.
    pub open spec fn spec_message(self) -> Seq<char> {
        "неизвестная субкультура"@
    }

    /// The text of the error, as a reader sees it.
    pub fn message(&self) -> (r: String)
        ensures
            r@ == self.spec_message(),
    {
        "неизвестная субкультура".to_owned()
    }
}

impl BioError {
    /// The text of the error, as a reader sees it.
    pub open spec fn spec_message(self) -> Seq<char> {
        match self {
            BioError::Empty => "био пустое"@,
            BioError::TooLong { len } => "био слишком длинное: "@
                + decimal_seq(len as nat)
                + " символов"@,
        }
    }

    /// The text of the error, as a reader sees it.
    pub fn message(&self) -> (r: String)
        ensures
            r@ == self.spec_message(),
    {
        match self {
            BioError::Empty => "био пустое".to_owned(),
            BioError::TooLong { len } => {
                let mut s = "био слишком длинное: ".to_owned();
                s.push_str(decimal(*len as u128).as_str());
                s.push_str(" символов");
                s
            },
        }
    }
}

} // verus!
