use babangida::domain::social::{Bio, DisplayName, DisplayNameError, Profile, Subculture, SubcultureError};
use babangida::shared::id::Id;

#[test]
fn display_name_trims_and_limits() {
    assert_eq!(DisplayName::parse("  Гуф  ").unwrap().as_str(), "Гуф");
    assert_eq!(DisplayName::parse("   "), Err(DisplayNameError::Empty));
    assert!(matches!(DisplayName::parse(&"я".repeat(51)), Err(DisplayNameError::TooLong { len: 51 })));
}

#[test]
fn subculture_roundtrips() {
    assert_eq!(Subculture::parse("UnderGround").unwrap(), Subculture::Underground);
    assert_eq!(Subculture::HipHop.as_str(), "hiphop");
    assert_eq!(Subculture::parse("jazz"), Err(SubcultureError));
}

#[test]
fn profile_updates_fields() {
    let mut p = Profile::create(Id::generate(), DisplayName::parse("MC").unwrap(), Subculture::Underground);
    assert!(p.bio().is_none());
    p.set_bio(Some(Bio::parse("из подвала").unwrap()));
    assert_eq!(p.bio().map(Bio::as_str), Some("из подвала"));
    p.set_subculture(Subculture::HipHop);
    assert_eq!(p.subculture(), Subculture::HipHop);
}

#[test]
fn a_profile_can_be_renamed() {
    let mut p = Profile::create(Id::generate(), DisplayName::parse("MC").unwrap(), Subculture::Skin);
    p.rename(DisplayName::parse("  Гуф ").unwrap());
    assert_eq!(p.display_name().as_str(), "Гуф");
    assert_eq!(p.subculture(), Subculture::Skin);
}
