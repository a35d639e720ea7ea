//! The rows of listings.

use vstd::prelude::*;

use crate::application::query::ListingView as ListingCard;
use crate::domain::identity::{UserId, VerifiedStatus};
use crate::domain::marketplace::{
    description_view, Listing, ListingDescription, ListingDescriptionError, ListingDraft,
    ListingStatus, ListingTitle, ListingTitleError, ListingView, Price, PriceError,
};
use crate::domain::RepositoryError;
use crate::infrastructure::records::identity::{unavailable, unavailable_with};
use crate::shared::id::{lemma_id_view_injective, lemma_spec_from_uuid, Id};
use crate::shared::time::Timestamp;
use crate::text::str_eq;

verus! {

broadcast use {lemma_id_view_injective, lemma_spec_from_uuid};

/// The message of a corrupt listing row.
pub open spec fn corrupt_listing_text(what: Seq<char>) -> Seq<char> {
    "повреждённый товар в БД: "@ + what
}

/// A listing row is corrupt: `what` says which part.
pub fn corrupt(what: &str) -> (r: RepositoryError)
    ensures
        r matches RepositoryError::Unavailable(m) && m@ == corrupt_listing_text(what@),
{
    unavailable_with("повреждённый товар в БД: ", what)
}

/// Which part of a stored draft is corrupt, if one is: the title, then the
/// price (negative, zero or too large), then the description.
pub open spec fn draft_fault(title: Seq<char>, price: i64, description: Option<Seq<char>>) -> Option<Seq<char>> {
    if ListingTitle::spec_parse(title) is Err {
        Some("заголовок"@)
    } else if price < 0 || Price::spec_parse(price as u64) is Err {
        Some("цена"@)
    } else if description matches Some(d) && ListingDescription::spec_parse(d) is Err {
        Some("описание"@)
    } else {
        None
    }
}

/// The view of an optional stored text.
pub open spec fn opt_view(s: Option<String>) -> Option<Seq<char>> {
    match s {
        Some(t) => Some(t@),
        None => None,
    }
}

/// The draft of a stored listing, through the domain's rules.
pub fn build_draft(title: String, price: i64, description: Option<String>) -> (r: Result<ListingDraft, RepositoryError>)
    ensures
        match draft_fault(title@, price, opt_view(description)) {
            Some(what) => r matches Err(RepositoryError::Unavailable(m)) && m@ == corrupt_listing_text(what),
            None => r matches Ok(d) && {
                &&& ListingTitle::spec_parse(title@) == Ok::<Seq<char>, ListingTitleError>(d.title@)
                &&& d.price@ == price as u64
                &&& description_view(d.description) == (match opt_view(description) {
                    Some(t) => Some(ListingDescription::spec_parse(t)->Ok_0),
                    None => None,
                })
            },
        },
{
    let title = match ListingTitle::parse(title.as_str()) {
        Ok(t) => t,
        Err(_) => return Err(corrupt("заголовок")),
    };
    if price < 0 {
        return Err(corrupt("цена"));
    }
    let price = match Price::parse(price as u64) {
        Ok(p) => p,
        Err(_) => return Err(corrupt("цена")),
    };
    let description = match description {
        Some(d) => match ListingDescription::parse(d.as_str()) {
            Ok(v) => Some(v),
            Err(_) => return Err(corrupt("описание")),
        },
        None => None,
    };
    Ok(ListingDraft { title, price, description })
}

/// A stored status, if it is one of the known three.
pub open spec fn spec_listing_status(raw: Seq<char>) -> Option<ListingStatus> {
    if raw == "active"@ {
        Some(ListingStatus::Active)
    } else if raw == "sold"@ {
        Some(ListingStatus::Sold)
    } else if raw == "withdrawn"@ {
        Some(ListingStatus::Withdrawn)
    } else {
        None
    }
}

/// A listing row, rebuilt through the domain: listed as active (the check was
/// passed when it was listed), then brought to the stored status.
pub fn reconstitute_listing(
    id: u128,
    seller: u128,
    title: String,
    price: i64,
    description: Option<String>,
    status: String,
    created_at: Timestamp,
) -> (r: Result<Listing, RepositoryError>)
    ensures
        match draft_fault(title@, price, opt_view(description)) {
            Some(what) => r matches Err(RepositoryError::Unavailable(m)) && m@ == corrupt_listing_text(what),
            None => match spec_listing_status(status@) {
                None => r matches Err(RepositoryError::Unavailable(m)) && m@ == corrupt_listing_text(
                    "неизвестный статус "@ + status@,
                ),
                Some(s) => r matches Ok(l) && {
                    &&& l@.id == Id::<crate::domain::marketplace::ListingMarker>::spec_from_uuid(id)
                    &&& l@.seller == Id::<crate::domain::identity::UserMarker>::spec_from_uuid(seller)
                    &&& ListingTitle::spec_parse(title@) == Ok::<Seq<char>, ListingTitleError>(l@.title)
                    &&& l@.price@ == price as u64
                    &&& l@.description == (match opt_view(description) {
                        Some(t) => Some(ListingDescription::spec_parse(t)->Ok_0),
                        None => None,
                    })
                    &&& l@.status == s
                    &&& l@.created_at == created_at
                },
            },
        },
{
    proof {
        reveal_strlit("active");
        reveal_strlit("sold");
        reveal_strlit("withdrawn");
    }
    let seller_id: UserId = Id::from_uuid(seller);
    let draft = build_draft(title, price, description)?;
    let (mut listing, _posted) = match Listing::list(Id::from_uuid(id), seller_id, VerifiedStatus::Verified, draft, created_at) {
        Ok(pair) => pair,
        Err(_) => return Err(corrupt("реконституция")),
    };
    if str_eq(status.as_str(), "active") {
    } else if str_eq(status.as_str(), "sold") {
        if listing.mark_sold(seller_id).is_err() {
            return Err(corrupt("статус"));
        }
    } else if str_eq(status.as_str(), "withdrawn") {
        if listing.withdraw(seller_id).is_err() {
            return Err(corrupt("статус"));
        }
    } else {
        let mut what = String::new();
        what.push_str("неизвестный статус ");
        what.push_str(status.as_str());
        return Err(corrupt(what.as_str()));
    }
    Ok(listing)
}

/// A listing card row with the seller's handle; a price outside `u64` is a
/// failure of the store.
pub fn row_to_view(
    id: u128,
    seller: u128,
    seller_handle: String,
    title: String,
    price: i64,
    description: Option<String>,
    status: String,
    created_at: Timestamp,
) -> (r: Result<ListingCard, RepositoryError>)
    ensures
        price < 0 ==> (r matches Err(RepositoryError::Unavailable(m)) && m@ == "цена вне диапазона"@),
        price >= 0 ==> (r matches Ok(card) && {
            &&& card.listing_id@ == id
            &&& card.seller@ == seller
            &&& card.seller_handle@ == seller_handle@
            &&& card.title@ == title@
            &&& card.price_rubles == price as u64
            &&& opt_view(card.description) == opt_view(description)
            &&& card.status@ == status@
            &&& card.created_at == created_at
        }),
{
    if price < 0 {
        return Err(unavailable("цена вне диапазона"));
    }
    Ok(ListingCard {
        listing_id: Id::from_uuid(id),
        seller: Id::from_uuid(seller),
        seller_handle,
        title,
        price_rubles: price as u64,
        description,
        status,
        created_at,
    })
}

/// Law: a status is read back from the text it is stored as.
pub proof fn law_listing_status_roundtrip(status: ListingStatus)
    ensures
        spec_listing_status(status.spec_as_str()) == Some(status),
{
    reveal_strlit("active");
    reveal_strlit("sold");
    reveal_strlit("withdrawn");
    assert("active"@[0] != "sold"@[0]);
    assert("active"@[0] != "withdrawn"@[0]);
    assert("sold"@[0] != "withdrawn"@[0]);
}

/// Law: a listing is read back from the row it is stored as. Its texts were
/// parsed when it was listed, and a parsed text parses to itself; its price
/// passed the price rule and fits the stored integer; its status is stored by
/// name. So the row has no fault, and every field reads back as it was.
pub proof fn law_listing_store_roundtrip(l: ListingView)
    requires
        ListingTitle::spec_parse(l.title) == Ok::<Seq<char>, ListingTitleError>(l.title),
        Price::spec_parse(l.price@) == Ok::<u64, PriceError>(l.price@),
        l.description matches Some(d) ==> ListingDescription::spec_parse(d) == Ok::<Seq<char>, ListingDescriptionError>(d),
    ensures
        draft_fault(l.title, l.price@ as i64, l.description) is None,
        (l.price@ as i64) as u64 == l.price@,
        spec_listing_status(l.status.spec_as_str()) == Some(l.status),
        (match l.description {
            Some(d) => Some(ListingDescription::spec_parse(d)->Ok_0),
            None => None,
        }) == l.description,
{
    law_listing_status_roundtrip(l.status);
}

} // verus!
