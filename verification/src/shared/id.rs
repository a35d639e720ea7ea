//! Typed identifiers over a UUID. The marker `T` only keeps identifiers of
//! different entities apart; the value is the UUID as a 128-bit integer, in the
//! big-endian order that UUIDs are compared by.

use vstd::prelude::*;
use vstd::std_specs::cmp::PartialEqSpecImpl;

verus! {

/// What `uuid::Uuid::parse_str` returns for the given text, as the UUID's
/// big-endian 128-bit value (`None` where it returns an error).
pub uninterp spec fn spec_uuid_parse(s: Seq<char>) -> Option<u128>;

/// A lowercase hexadecimal digit.
pub open spec fn uuid_hex_char(n: int) -> char {
    if n < 10 {
        (48 + n) as char
    } else {
        (87 + n) as char
    }
}

/// The `i`-th of the 32 hexadecimal digits of a UUID value, most significant
/// first.
pub open spec fn uuid_nibble(value: u128, i: int) -> int {
    ((value >> ((124 - 4 * i) as u128)) & 0xfu128) as int
}

/// Where the hyphenated form of a UUID has a hyphen.
pub open spec fn uuid_hyphen_at(k: int) -> bool {
    k == 8 || k == 13 || k == 18 || k == 23
}

/// Which digit stands at a position of the hyphenated form that holds one.
pub open spec fn uuid_digit_index(k: int) -> int {
    if k < 8 {
        k
    } else if k < 13 {
        k - 1
    } else if k < 18 {
        k - 2
    } else if k < 23 {
        k - 3
    } else {
        k - 4
    }
}

/// The text that `uuid::Uuid::hyphenated` writes for a UUID value: its 32
/// lowercase hexadecimal digits, most significant first, in groups of 8, 4,
/// 4, 4 and 12 joined by hyphens.
pub open spec fn spec_uuid_hyphenated(value: u128) -> Seq<char> {
    Seq::new(
        36,
        |k: int|
            if uuid_hyphen_at(k) {
                '-'
            } else {
                uuid_hex_char(uuid_nibble(value, uuid_digit_index(k)))
            },
    )
}

/// `uuid::Uuid::parse_str`, the value read back with `Uuid::as_u128`. The claim:
/// the result is the named function of the text.
#[verifier::external_body]
fn uuid_parse_str(input: &str) -> (r: Option<u128>)
    ensures
        r == spec_uuid_parse(input@),
{
    match uuid::Uuid::parse_str(input) {
        Ok(u) => Some(u.as_u128()),
        Err(_) => None,
    }
}

/// `uuid::Uuid::from_u128(value).hyphenated().to_string()`. The claims: the text
/// is the lowercase hyphenated form of the value (the crate's `Display` of
/// `Hyphenated` writes its lowercase encoding), and `Uuid::parse_str` reads
/// that text back as the same value (the hyphenated form is one that
/// `parse_str` accepts).
#[verifier::external_body]
fn uuid_hyphenated(value: u128) -> (r: String)
    ensures
        r@ == spec_uuid_hyphenated(value),
        spec_uuid_parse(r@) == Some(value),
{
    uuid::Uuid::from_u128(value).hyphenated().to_string()
}

/// The version field of a UUID value (the high nibble of its seventh byte).
pub open spec fn uuid_version(value: u128) -> u128 {
    (value >> 76u128) & 0xfu128
}

/// The variant field of a UUID value (the two high bits of its ninth byte).
pub open spec fn uuid_variant(value: u128) -> u128 {
    (value >> 62u128) & 0x3u128
}

/// `uuid::Uuid::now_v7().as_u128()`: a time-ordered random UUID. The claim is
/// what every version-7 UUID of the crate carries: the version field 7 and the
/// RFC 4122 variant (binary `10`). The timestamp and random bits depend on
/// the clock and on chance and are not stated.
#[verifier::external_body]
fn uuid_now_v7() -> (r: u128)
    ensures
        uuid_version(r) == 7,
        uuid_variant(r) == 2,
{
    uuid::Uuid::now_v7().as_u128()
}

/// Typed identifier. Two identifiers are equal when their UUIDs are.
#[derive(Debug, Hash)]
#[verifier::reject_recursive_types(T)]
pub struct Id<T> {
    value: u128,
    marker: core::marker::PhantomData<T>,
}

impl<T> View for Id<T> {
    type V = u128;

    closed spec fn view(&self) -> u128 {
        self.value
    }
}

impl<T> Id<T> {
    /// Wrap a ready UUID value.
    pub fn from_uuid(value: u128) -> (r: Self)
        ensures
            r@ == value,
    {
        Id { value, marker: core::marker::PhantomData }
    }

    /// A new time-ordered identifier (UUID v7). Called at the boundary.
    pub fn generate() -> (r: Self)
        ensures
            uuid_version(r@) == 7,
            uuid_variant(r@) == 2,
    {
        Self::from_uuid(uuid_now_v7())
    }

    /// Parse from text; an error where the text is not a UUID.
    pub fn parse(input: &str) -> (r: Result<Self, IdParseError>)
        ensures
            match spec_uuid_parse(input@) {
                Some(v) => r matches Ok(id) && id@ == v,
                None => r == Err::<Self, IdParseError>(IdParseError),
            },
    {
        match uuid_parse_str(input) {
            Some(v) => Ok(Self::from_uuid(v)),
            None => Err(IdParseError),
        }
    }

    /// The UUID value.
    pub fn as_uuid(&self) -> (r: u128)
        ensures
            r == self@,
    {
        self.value
    }

    /// The hyphenated lowercase text of the UUID (what `Display` writes).
    pub fn to_string(&self) -> (r: String)
        ensures
            r@ == spec_uuid_hyphenated(self@),
            spec_uuid_parse(r@) == Some(self@),
    {
        uuid_hyphenated(self.value)
    }
}

impl<T> Clone for Id<T> {
    fn clone(&self) -> (r: Self)
        ensures
            r == *self,
    {
        Id { value: self.value, marker: core::marker::PhantomData }
    }
}

impl<T> Copy for Id<T> {

}

impl<T> PartialEq for Id<T> {
    fn eq(&self, other: &Self) -> (r: bool) {
        self.value == other.value
    }
}

impl<T> PartialEqSpecImpl for Id<T> {
    open spec fn obeys_eq_spec() -> bool {
        true
    }

    open spec fn eq_spec(&self, other: &Self) -> bool {
        self@ == other@
    }
}

impl<T> Eq for Id<T> {

}

impl<T> Id<T> {
    /// The identifier of a UUID value, in specifications.
    pub closed spec fn spec_from_uuid(value: u128) -> Self {
        Id { value, marker: core::marker::PhantomData }
    }
}

/// The identifier of a UUID value has that value.
pub broadcast proof fn lemma_spec_from_uuid<T>(value: u128)
    ensures
        (#[trigger] Id::<T>::spec_from_uuid(value))@ == value,
{
}

/// Two identifiers with the same UUID are the same identifier.
pub broadcast proof fn lemma_id_view_injective<T>(a: Id<T>, b: Id<T>)
    ensures
        #[trigger] a@ == #[trigger] b@ <==> a == b,
{
}

/// The text is not a valid UUID.
#[derive(Debug, Clone, Copy, PartialEq, Eq, Structural)]
pub struct IdParseError;

impl IdParseError {
    /// The text of the error, as a reader sees it.
    pub open spec fn spec_message(self) -> Seq<char> {
        "невалидный идентификатор: ожидался UUID"@
    }

    /// The text of the error, as a reader sees it.
    pub fn message(&self) -> (r: String)
        ensures
            r@ == self.spec_message(),
    {
        "невалидный идентификатор: ожидался UUID".to_owned()
    }
}

} // verus!
