use babangida::shared::id::{Id, IdParseError};
use babangida::shared::time::{Duration, Timestamp};

#[derive(Debug)]
struct Marker;

type TestId = Id<Marker>;

#[test]
fn generate_is_unique() {
    assert_ne!(TestId::generate(), TestId::generate());
}

#[test]
fn roundtrip_through_string() {
    let id = TestId::generate();
    let parsed = TestId::parse(&id.to_string()).expect("must parse");
    assert_eq!(id, parsed);
}

#[test]
fn parse_rejects_garbage() {
    assert_eq!(TestId::parse("не-uuid"), Err(IdParseError));
}

#[test]
fn duration_since_is_signed() {
    let t0 = Timestamp::now();
    let later = t0 + Duration::hours(13);
    assert_eq!(later.duration_since(t0), Duration::hours(13));
    assert_eq!(t0.duration_since(later), Duration::hours(-13));
}

#[test]
fn ordering_follows_time() {
    let t0 = Timestamp::now();
    assert!(t0 < t0 + Duration::seconds(1));
}


#[test]
fn generated_ids_are_version_seven() {
    let v = TestId::generate().as_uuid();
    assert_eq!((v >> 76) & 0xf, 7);
    assert_eq!((v >> 62) & 0x3, 2);
}

#[test]
fn clock_readings_become_moments() {
    assert_eq!(Timestamp::from_clock_reading(Ok(1_500)).into_offset(), 1_500);
    assert_eq!(Timestamp::from_clock_reading(Err(2_000)).into_offset(), -2_000);
    assert_eq!(Timestamp::from_clock_reading(Ok(u128::MAX)).into_offset(), 253_402_300_799_999_999_999);
    assert_eq!(Timestamp::from_clock_reading(Err(u128::MAX)).into_offset(), -377_705_116_800_000_000_000);
}

#[test]
fn ids_are_written_lowercase_hyphenated() {
    let id = TestId::from_uuid(0x67E5_5044_10B1_426F_9247_BB68_0E5F_E0C8);
    assert_eq!(id.to_string(), "67e55044-10b1-426f-9247-bb680e5fe0c8");
    assert_eq!(TestId::parse("67E55044-10B1-426F-9247-BB680E5FE0C8").unwrap(), id);
}

#[test]
fn the_clock_reads_a_moment_inside_the_calendar() {
    let now = Timestamp::now().into_offset();
    // 2020-01-01T00:00:00Z: every machine running this is past it.
    assert!(now > 1_577_836_800_000_000_000);
    assert!(now <= 253_402_300_799_999_999_999);
}
