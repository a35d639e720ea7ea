//! The marketplace context: the flea market. Selling is a privilege of the
//! verified: the check is a domain invariant ([`Listing::list`] takes the
//! [`VerifiedStatus`]); the application only reads the status and passes it in.

use vstd::prelude::*;

use crate::domain::identity::{UserId, VerifiedStatus};
use crate::shared::id::{lemma_id_view_injective, Id};
use crate::shared::time::Timestamp;
use crate::text::{
    check_text, decimal, decimal_seq, lemma_trim_idempotent, text_fault, trim_seq, view_outcome,
    TextFault,
};

verus! {

broadcast use lemma_id_view_injective;

/// Title of a listing: 1..=120 characters.
#[derive(Debug, PartialEq, Eq)]
pub struct ListingTitle(String);

impl View for ListingTitle {
    type V = Seq<char>;

    closed spec fn view(&self) -> Seq<char> {
        self.0@
    }
}

impl Clone for ListingTitle {
    fn clone(&self) -> (r: Self)
        ensures
            r@ == self@,
    {
        ListingTitle(self.0.clone())
    }
}

/// A breach of the [`ListingTitle`] rules.
#[derive(Debug, Clone, PartialEq, Eq, Structural)]
pub enum ListingTitleError {
    Empty,
    TooLong { len: usize },
}

impl ListingTitle {
    /// Maximum length, in characters.
    pub const MAX_LEN: usize = 120;

    /// What [`ListingTitle::parse`] gives for a text: the trimmed text, or why it is
    /// refused.
    pub open spec fn spec_parse(input: Seq<char>) -> Result<Seq<char>, ListingTitleError> {
        match text_fault(input, 120) {
            Some(TextFault::Empty) => Err(ListingTitleError::Empty),
            Some(TextFault::TooLong(len)) => Err(ListingTitleError::TooLong { len }),
            None => Ok(trim_seq(input)),
        }
    }

    /// Parse: trimmed, 1..=`MAX_LEN` characters.
    pub fn parse(input: &str) -> (r: Result<Self, ListingTitleError>)
        ensures
            view_outcome(r) == Self::spec_parse(input@),
    {
        match check_text(input, Self::MAX_LEN) {
            Ok(t) => Ok(ListingTitle(t.to_owned())),
            Err(TextFault::Empty) => Err(ListingTitleError::Empty),
            Err(TextFault::TooLong(len)) => Err(ListingTitleError::TooLong { len }),
        }
    }

    /// The text.
    pub fn as_str(&self) -> (r: &str)
        ensures
            r@ == self@,
    {
        self.0.as_str()
    }
}

/// Description of a listing: 1..=4000 characters.
#[derive(Debug, PartialEq, Eq)]
pub struct ListingDescription(String);

impl View for ListingDescription {
    type V = Seq<char>;

    closed spec fn view(&self) -> Seq<char> {
        self.0@
    }
}

impl Clone for ListingDescription {
    fn clone(&self) -> (r: Self)
        ensures
            r@ == self@,
    {
        ListingDescription(self.0.clone())
    }
}

/// A breach of the [`ListingDescription`] rules.
#[derive(Debug, Clone, PartialEq, Eq, Structural)]
pub enum ListingDescriptionError {
    Empty,
    TooLong { len: usize },
}

impl ListingDescription {
    /// Maximum length, in characters.
    pub const MAX_LEN: usize = 4000;

    /// What [`ListingDescription::parse`] gives for a text: the trimmed text, or why it is
    /// refused.
    pub open spec fn spec_parse(input: Seq<char>) -> Result<Seq<char>, ListingDescriptionError> {
        match text_fault(input, 4000) {
            Some(TextFault::Empty) => Err(ListingDescriptionError::Empty),
            Some(TextFault::TooLong(len)) => Err(ListingDescriptionError::TooLong { len }),
            None => Ok(trim_seq(input)),
        }
    }

    /// Parse: trimmed, 1..=`MAX_LEN` characters.
    pub fn parse(input: &str) -> (r: Result<Self, ListingDescriptionError>)
        ensures
            view_outcome(r) == Self::spec_parse(input@),
    {
        match check_text(input, Self::MAX_LEN) {
            Ok(t) => Ok(ListingDescription(t.to_owned())),
            Err(TextFault::Empty) => Err(ListingDescriptionError::Empty),
            Err(TextFault::TooLong(len)) => Err(ListingDescriptionError::TooLong { len }),
        }
    }

    /// The text.
    pub fn as_str(&self) -> (r: &str)
        ensures
            r@ == self@,
    {
        self.0.as_str()
    }
}

/// Price in whole rubles (no kopecks, no currencies). Strictly positive.
#[derive(Debug, Clone, Copy, PartialEq, Eq, Structural)]
pub struct Price(u64);

/// A breach of the [`Price`] rules.
#[derive(Debug, Clone, Copy, PartialEq, Eq, Structural)]
pub enum PriceError {
    Zero,
    TooLarge,
}

impl View for Price {
    type V = u64;

    closed spec fn view(&self) -> u64 {
        self.0
    }
}

impl Price {
    /// Upper bound (guards against junk).
    pub const MAX: u64 = 1_000_000_000;

    /// What [`Price::parse`] gives for an amount.
    pub open spec fn spec_parse(rubles: u64) -> Result<u64, PriceError> {
        if rubles == 0 {
            Err(PriceError::Zero)
        } else if rubles > 1_000_000_000 {
            Err(PriceError::TooLarge)
        } else {
            Ok(rubles)
        }
    }

    /// Parse a price from whole rubles.
    pub fn parse(rubles: u64) -> (r: Result<Self, PriceError>)
        ensures
            view_outcome(r) == Self::spec_parse(rubles),
    {
        if rubles == 0 {
            return Err(PriceError::Zero);
        }
        if rubles > Self::MAX {
            return Err(PriceError::TooLarge);
        }
        Ok(Price(rubles))
    }

    /// The amount in rubles.
    pub fn rubles(self) -> (r: u64)
        ensures
            r == self@,
    {
        self.0
    }
}

/// A listing draft: what the seller sets (no id, moment or status).
#[derive(Debug, Clone)]
pub struct ListingDraft {
    pub title: ListingTitle,
    pub price: Price,
    pub description: Option<ListingDescription>,
}

/// The view of an optional description.
pub open spec fn description_view(d: Option<ListingDescription>) -> Option<Seq<char>> {
    match d {
        Some(v) => Some(v@),
        None => None,
    }
}

/// Status of a listing.
#[derive(Debug, Clone, Copy, PartialEq, Eq, Structural)]
pub enum ListingStatus {
    /// On sale.
    Active,
    /// Sold.
    Sold,
    /// Withdrawn by the seller.
    Withdrawn,
}

impl ListingStatus {
    /// Whether it is on sale (and so may be marked sold or withdrawn).
    pub fn is_active(self) -> (r: bool)
        ensures
            r == (self is Active),
    {
        match self {
            ListingStatus::Active => true,
            _ => false,
        }
    }

    pub open spec fn spec_as_str(self) -> Seq<char> {
        match self {
            ListingStatus::Active => "active"@,
            ListingStatus::Sold => "sold"@,
            ListingStatus::Withdrawn => "withdrawn"@,
        }
    }

    /// The canonical text.
    pub fn as_str(self) -> (r: &'static str)
        ensures
            r@ == self.spec_as_str(),
    {
        match self {
            ListingStatus::Active => "active",
            ListingStatus::Sold => "sold",
            ListingStatus::Withdrawn => "withdrawn",
        }
    }
}

/// Marker of the typed [`ListingId`].
#[derive(Debug, Clone, Copy, PartialEq, Eq, Hash)]
pub struct ListingMarker;

/// Identifier of a listing.
pub type ListingId = Id<ListingMarker>;

/// What a listing is, in mathematical terms.
pub struct ListingView {
    pub id: ListingId,
    pub seller: UserId,
    pub title: Seq<char>,
    pub price: Price,
    pub description: Option<Seq<char>>,
    pub status: ListingStatus,
    pub created_at: Timestamp,
}

/// A listing on the flea market: the root of the marketplace aggregate. Made
/// only by a verified seller; only the seller changes its status.
#[derive(Debug, Clone)]
pub struct Listing {
    id: ListingId,
    seller: UserId,
    title: ListingTitle,
    price: Price,
    description: Option<ListingDescription>,
    status: ListingStatus,
    created_at: Timestamp,
}

impl View for Listing {
    type V = ListingView;

    closed spec fn view(&self) -> ListingView {
        ListingView {
            id: self.id,
            seller: self.seller,
            title: self.title@,
            price: self.price,
            description: description_view(self.description),
            status: self.status,
            created_at: self.created_at,
        }
    }
}

/// Event: a listing was posted.
#[derive(Debug, Clone)]
pub struct ListingPosted {
    pub listing: ListingId,
    pub seller: UserId,
}

/// Event: a listing was sold.
#[derive(Debug, Clone)]
pub struct ListingSold {
    pub listing: ListingId,
}

/// Event: a listing was withdrawn.
#[derive(Debug, Clone)]
pub struct ListingWithdrawn {
    pub listing: ListingId,
}

/// A breach of the marketplace rules.
#[derive(Debug, Clone, PartialEq, Eq, Structural)]
pub enum MarketplaceError {
    /// Only the verified may sell.
    NotVerified,
    /// Only the seller may change a listing.
    NotSeller,
    /// The listing is no longer active (sold or withdrawn).
    NotActive,
}

/// Why a status change by `actor` is refused, if it is.
pub open spec fn status_change_error(listing: ListingView, actor: UserId) -> Option<MarketplaceError> {
    if actor != listing.seller {
        Some(MarketplaceError::NotSeller)
    } else if !(listing.status is Active) {
        Some(MarketplaceError::NotActive)
    } else {
        None
    }
}

impl Listing {
    /// Post a listing. The seller must be verified.
    pub fn list(id: ListingId, seller: UserId, verified: VerifiedStatus, draft: ListingDraft, now: Timestamp) -> (r: Result<(Self, ListingPosted), MarketplaceError>)
        ensures
            match r {
                Ok((listing, event)) => {
                    &&& verified is Verified
                    &&& listing@ == (ListingView {
                        id,
                        seller,
                        title: draft.title@,
                        price: draft.price,
                        description: description_view(draft.description),
                        status: ListingStatus::Active,
                        created_at: now,
                    })
                    &&& event.listing == id
                    &&& event.seller == seller
                },
                Err(e) => verified is Casual && e == MarketplaceError::NotVerified,
            },
    {
        if !verified.is_verified() {
            return Err(MarketplaceError::NotVerified);
        }
        let listing = Listing {
            id,
            seller,
            title: draft.title,
            price: draft.price,
            description: draft.description,
            status: ListingStatus::Active,
            created_at: now,
        };
        let event = ListingPosted { listing: id, seller };
        Ok((listing, event))
    }

    /// Mark sold (only the seller, only from active).
    pub fn mark_sold(&mut self, actor: UserId) -> (r: Result<ListingSold, MarketplaceError>)
        ensures
            match r {
                Ok(event) => {
                    &&& status_change_error(old(self)@, actor) is None
                    &&& final(self)@ == (ListingView { status: ListingStatus::Sold, ..old(self)@ })
                    &&& event.listing == old(self)@.id
                },
                Err(e) => {
                    &&& status_change_error(old(self)@, actor) == Some(e)
                    &&& final(self)@ == old(self)@
                },
            },
    {
        self.require_seller(actor)?;
        self.require_active()?;
        self.status = ListingStatus::Sold;
        Ok(ListingSold { listing: self.id })
    }

    /// Withdraw (only the seller, only from active).
    pub fn withdraw(&mut self, actor: UserId) -> (r: Result<ListingWithdrawn, MarketplaceError>)
        ensures
            match r {
                Ok(event) => {
                    &&& status_change_error(old(self)@, actor) is None
                    &&& final(self)@ == (ListingView { status: ListingStatus::Withdrawn, ..old(self)@ })
                    &&& event.listing == old(self)@.id
                },
                Err(e) => {
                    &&& status_change_error(old(self)@, actor) == Some(e)
                    &&& final(self)@ == old(self)@
                },
            },
    {
        self.require_seller(actor)?;
        self.require_active()?;
        self.status = ListingStatus::Withdrawn;
        Ok(ListingWithdrawn { listing: self.id })
    }

    fn require_seller(&self, actor: UserId) -> (r: Result<(), MarketplaceError>)
        ensures
            r is Ok <==> actor == self@.seller,
            r is Err ==> r == Err::<(), MarketplaceError>(MarketplaceError::NotSeller),
    {
        if actor == self.seller {
            Ok(())
        } else {
            Err(MarketplaceError::NotSeller)
        }
    }

    fn require_active(&self) -> (r: Result<(), MarketplaceError>)
        ensures
            r is Ok <==> self@.status is Active,
            r is Err ==> r == Err::<(), MarketplaceError>(MarketplaceError::NotActive),
    {
        if self.status.is_active() {
            Ok(())
        } else {
            Err(MarketplaceError::NotActive)
        }
    }

    pub fn id(&self) -> (r: ListingId)
        ensures
            r == self@.id,
    {
        self.id
    }

    pub fn seller(&self) -> (r: UserId)
        ensures
            r == self@.seller,
    {
        self.seller
    }

    pub fn title(&self) -> (r: &ListingTitle)
        ensures
            r@ == self@.title,
    {
        &self.title
    }

    pub fn price(&self) -> (r: Price)
        ensures
            r == self@.price,
    {
        self.price
    }

    pub fn description(&self) -> (r: Option<&ListingDescription>)
        ensures
            match r {
                Some(d) => self@.description == Some(d@),
                None => self@.description is None,
            },
    {
        match &self.description {
            Some(d) => Some(d),
            None => None,
        }
    }

    pub fn status(&self) -> (r: ListingStatus)
        ensures
            r == self@.status,
    {
        self.status
    }

    pub fn created_at(&self) -> (r: Timestamp)
        ensures
            r == self@.created_at,
    {
        self.created_at
    }
}

/// Law: only an active listing changes status. Once sold or withdrawn, every
/// further change is refused, whoever asks.
pub proof fn law_inactive_listing_is_final(listing: ListingView, actor: UserId)
    requires
        !(listing.status is Active),
    ensures
        status_change_error(listing, actor) is Some,
{
}

/// Law: a parsed listing title parses to itself, so that the text that is stored is
/// what loading reads back.
pub proof fn law_listing_title_parse_idempotent(input: Seq<char>)
    requires
        ListingTitle::spec_parse(input) is Ok,
    ensures
        ListingTitle::spec_parse(ListingTitle::spec_parse(input)->Ok_0) == ListingTitle::spec_parse(input),
{
    lemma_trim_idempotent(input);
}

/// Law: a parsed listing description parses to itself, so that the text that is stored is
/// what loading reads back.
pub proof fn law_listing_description_parse_idempotent(input: Seq<char>)
    requires
        ListingDescription::spec_parse(input) is Ok,
    ensures
        ListingDescription::spec_parse(ListingDescription::spec_parse(input)->Ok_0) == ListingDescription::spec_parse(input),
{
    lemma_trim_idempotent(input);
}

impl ListingTitleError {
    /// The text of the error, as a reader sees it.
    pub open spec fn spec_message(self) -> Seq<char> {
        match self {
            ListingTitleError::Empty => "заголовок товара пустой"@,
            ListingTitleError::TooLong { len } => "заголовок товара слишком длинный: "@
                + decimal_seq(len as nat)
                + " символов (максимум 120)"@,
        }
    }

    /// The text of the error, as a reader sees it.
    pub fn message(&self) -> (r: String)
        ensures
            r@ == self.spec_message(),
    {
        match self {
            ListingTitleError::Empty => "заголовок товара пустой".to_owned(),
            ListingTitleError::TooLong { len } => {
                let mut s = "заголовок товара слишком длинный: ".to_owned();
                s.push_str(decimal(*len as u128).as_str());
                s.push_str(" символов (максимум 120)");
                s
            },
        }
    }
}

impl ListingDescriptionError {
    /// The text of the error, as a reader sees it.
    pub open spec fn spec_message(self) -> Seq<char> {
        match self {
            ListingDescriptionError::Empty => "описание товара пустое"@,
            ListingDescriptionError::TooLong { len } => "описание товара слишком длинное: "@
                + decimal_seq(len as nat)
                + " символов (максимум 4000)"@,
        }
    }

    /// The text of the error, as a reader sees it.
    pub fn message(&self) -> (r: String)
        ensures
            r@ == self.spec_message(),
    {
        match self {
            ListingDescriptionError::Empty => "описание товара пустое".to_owned(),
            ListingDescriptionError::TooLong { len } => {
                let mut s = "описание товара слишком длинное: ".to_owned();
                s.push_str(decimal(*len as u128).as_str());
                s.push_str(" символов (максимум 4000)");
                s
            },
        }
    }
}

impl PriceError {
    /// The text of the error, as a reader sees it.
    pub open spec fn spec_message(self) -> Seq<char> {
        match self {
            PriceError::Zero => "цена не может быть нулевой"@,
            PriceError::TooLarge => "цена слишком большая"@,
        }
    }

    /// The text of the error, as a reader sees it.
    pub fn message(&self) -> (r: String)
        ensures
            r@ == self.spec_message(),
    {
        match self {
            PriceError::Zero => "цена не может быть нулевой".to_owned(),
            PriceError::TooLarge => "цена слишком большая".to_owned(),
        }
    }
}

impl MarketplaceError {
    /// The text of the error, as a reader sees it.
    pub open spec fn spec_message(self) -> Seq<char> {
        match self {
            MarketplaceError::NotVerified => "продажа доступна только верифицированным"@,
            MarketplaceError::NotSeller => "действие доступно только продавцу товара"@,
            MarketplaceError::NotActive => "товар уже не активен"@,
        }
    }

    /// The text of the error, as a reader sees it.
    pub fn message(&self) -> (r: String)
        ensures
            r@ == self.spec_message(),
    {
        match self {
            MarketplaceError::NotVerified => "продажа доступна только верифицированным".to_owned(),
            MarketplaceError::NotSeller => "действие доступно только продавцу товара".to_owned(),
            MarketplaceError::NotActive => "товар уже не активен".to_owned(),
        }
    }
}

} // verus!
