use babangida::domain::identity::{UserId, VerifiedStatus};
use babangida::domain::marketplace::{
    Listing, ListingDescription, ListingDraft, ListingStatus, ListingTitle, ListingTitleError,
    MarketplaceError, Price, PriceError,
};
use babangida::shared::id::Id;
use babangida::shared::time::Timestamp;

fn draft() -> ListingDraft {
    ListingDraft {
        title: ListingTitle::parse("MPC 2000XL").unwrap(),
        price: Price::parse(45000).unwrap(),
        description: Some(ListingDescription::parse("живой, без проблем").unwrap()),
    }
}

fn verified_listing(seller: UserId) -> Listing {
    Listing::list(Id::generate(), seller, VerifiedStatus::Verified, draft(), Timestamp::now())
        .expect("a verified seller may list")
        .0
}

#[test]
fn title_and_price_validate() {
    assert_eq!(ListingTitle::parse("  "), Err(ListingTitleError::Empty));
    assert!(matches!(ListingTitle::parse(&"x".repeat(121)), Err(ListingTitleError::TooLong { .. })));
    assert_eq!(Price::parse(0), Err(PriceError::Zero));
    assert!(matches!(Price::parse(2_000_000_000), Err(PriceError::TooLarge)));
    assert_eq!(Price::parse(100).unwrap().rubles(), 100);
}

#[test]
fn casual_cannot_list() {
    let err = Listing::list(Id::generate(), Id::generate(), VerifiedStatus::Casual, draft(), Timestamp::now())
        .unwrap_err();
    assert_eq!(err, MarketplaceError::NotVerified);
}

#[test]
fn verified_lists_active() {
    let seller = Id::generate();
    let (listing, event) = Listing::list(Id::generate(), seller, VerifiedStatus::Verified, draft(), Timestamp::now()).unwrap();
    assert!(listing.status().is_active());
    assert_eq!(listing.seller(), seller);
    assert_eq!(event.seller, seller);
}

#[test]
fn only_seller_changes_status() {
    let seller = Id::generate();
    let mut listing = verified_listing(seller);
    assert_eq!(listing.mark_sold(Id::generate()).unwrap_err(), MarketplaceError::NotSeller);
    assert!(listing.mark_sold(seller).is_ok());
    assert_eq!(listing.status(), ListingStatus::Sold);
}

#[test]
fn cannot_change_inactive() {
    let seller = Id::generate();
    let mut listing = verified_listing(seller);
    listing.withdraw(seller).unwrap();
    assert_eq!(listing.mark_sold(seller).unwrap_err(), MarketplaceError::NotActive);
    assert_eq!(listing.withdraw(seller).unwrap_err(), MarketplaceError::NotActive);
}
