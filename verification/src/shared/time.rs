//! Time values. A [`Timestamp`] is a moment in UTC and a [`Duration`] a signed
//! span, both counted in nanoseconds. The domain never reads the clock: moments
//! come from the boundary, so the domain rules stay deterministic.

use vstd::prelude::*;
use vstd::std_specs::ops::{AddSpec, AddSpecImpl};

verus! {

pub open spec fn nanos_per_second() -> int {
    1_000_000_000
}

/// The range of a duration: whole seconds in an `i64` and a nanosecond part
/// of the same sign below one second, from `i64::MIN` seconds less
/// 999,999,999 nanoseconds to `i64::MAX` seconds and 999,999,999 nanoseconds.
pub open spec fn duration_in_range(nanos: int) -> bool {
    -0x8000_0000_0000_0000 * nanos_per_second() - 999_999_999 <= nanos < 0x8000_0000_0000_0000
        * nanos_per_second()
}

/// First moment of the supported calendar range: -9999-01-01T00:00:00 UTC.
pub open spec fn min_unix_nanos() -> int {
    -377_705_116_800 * nanos_per_second()
}

/// Last moment of the supported calendar range: 9999-12-31T23:59:59.999999999 UTC.
pub open spec fn max_unix_nanos() -> int {
    253_402_300_799 * nanos_per_second() + 999_999_999
}

pub open spec fn timestamp_in_range(nanos: int) -> bool {
    min_unix_nanos() <= nanos <= max_unix_nanos()
}

/// A signed span of time, in nanoseconds.
#[derive(Clone, Copy, PartialEq, Eq, PartialOrd, Ord, Debug, Structural)]
pub struct Duration {
    nanos: i128,
}

impl Duration {
    #[verifier::type_invariant]
    closed spec fn inv(self) -> bool {
        duration_in_range(self.nanos as int)
    }
}

impl View for Duration {
    type V = int;

    closed spec fn view(&self) -> int {
        self.nanos as int
    }
}

impl Duration {
    /// `seconds` whole seconds.
    pub fn seconds(seconds: i64) -> (r: Self)
        ensures
            r@ == seconds * nanos_per_second(),
    {
        Duration { nanos: seconds as i128 * 1_000_000_000 }
    }

    /// `minutes` minutes; the seconds must fit in an `i64`.
    pub fn minutes(minutes: i64) -> (r: Self)
        requires
            i64::MIN <= minutes * 60 <= i64::MAX,
        ensures
            r@ == minutes * 60 * nanos_per_second(),
    {
        Duration { nanos: minutes as i128 * 60_000_000_000 }
    }

    /// `hours` hours; the seconds must fit in an `i64`.
    pub fn hours(hours: i64) -> (r: Self)
        requires
            i64::MIN <= hours * 3600 <= i64::MAX,
        ensures
            r@ == hours * 3600 * nanos_per_second(),
    {
        Duration { nanos: hours as i128 * 3_600_000_000_000 }
    }

    /// `days` days; the seconds must fit in an `i64`.
    pub fn days(days: i64) -> (r: Self)
        requires
            i64::MIN <= days * 86400 <= i64::MAX,
        ensures
            r@ == days * 86400 * nanos_per_second(),
    {
        Duration { nanos: days as i128 * 86_400_000_000_000 }
    }

    /// The span in nanoseconds.
    pub fn whole_nanoseconds(self) -> (r: i128)
        ensures
            r == self@,
    {
        self.nanos
    }

    /// `self` less `rhs`; the difference must stay in the range of a duration.
    pub fn minus(self, rhs: Duration) -> (r: Duration)
        requires
            duration_in_range(self@ - rhs@),
        ensures
            r@ == self@ - rhs@,
    {
        Duration { nanos: self.nanos - rhs.nanos }
    }

    /// Whether `self` is shorter than `other`.
    pub fn is_shorter_than(self, other: Duration) -> (r: bool)
        ensures
            r == (self@ < other@),
    {
        self.nanos < other.nanos
    }
}

/// A moment in UTC, in nanoseconds since the Unix epoch.
#[derive(Clone, Copy, PartialEq, Eq, PartialOrd, Ord, Debug, Structural)]
pub struct Timestamp {
    nanos: i128,
}

impl Timestamp {
    #[verifier::type_invariant]
    closed spec fn inv(self) -> bool {
        timestamp_in_range(self.nanos as int)
    }
}

impl View for Timestamp {
    type V = int;

    closed spec fn view(&self) -> int {
        self.nanos as int
    }
}

impl Timestamp {
    /// Wrap a moment given in nanoseconds since the Unix epoch; it must lie in
    /// the supported calendar range.
    pub fn from_offset(unix_nanos: i128) -> (r: Self)
        requires
            timestamp_in_range(unix_nanos as int),
        ensures
            r@ == unix_nanos,
    {
        Timestamp { nanos: unix_nanos }
    }

    /// The moment in nanoseconds since the Unix epoch.
    pub fn into_offset(self) -> (r: i128)
        ensures
            r == self@,
    {
        self.nanos
    }

    /// How long from `earlier` to `self`; negative where `earlier` is later.
    pub fn duration_since(self, earlier: Self) -> (r: Duration)
        ensures
            r@ == self@ - earlier@,
            timestamp_in_range(self@),
            timestamp_in_range(earlier@),
    {
        proof {
            use_type_invariant(&self);
            use_type_invariant(&earlier);
        }
        Duration { nanos: self.nanos - earlier.nanos }
    }

    /// Whether `self` comes strictly before `other`.
    pub fn is_before(self, other: Self) -> (r: bool)
        ensures
            r == (self@ < other@),
    {
        self.nanos < other.nanos
    }
}

/// A moment clamped into the supported calendar range.
pub open spec fn clamp_unix_nanos(nanos: int) -> int {
    if nanos < min_unix_nanos() {
        min_unix_nanos()
    } else if nanos > max_unix_nanos() {
        max_unix_nanos()
    } else {
        nanos
    }
}

impl Timestamp {
    /// The moment `rhs` later than `self`; it must lie in the supported
    /// calendar range.
    pub fn plus(self, rhs: Duration) -> (r: Timestamp)
        requires
            timestamp_in_range(self@ + rhs@),
        ensures
            r@ == self@ + rhs@,
    {
        Timestamp { nanos: self.nanos + rhs.nanos }
    }
}

/// `t + d`: the moment `d` later than `t`; it must lie in the supported
/// calendar range.
impl core::ops::Add<Duration> for Timestamp {
    type Output = Timestamp;

    fn add(self, rhs: Duration) -> (r: Timestamp) {
        self.plus(rhs)
    }
}

impl AddSpecImpl<Duration> for Timestamp {
    open spec fn obeys_add_spec() -> bool {
        true
    }

    open spec fn add_req(self, rhs: Duration) -> bool {
        timestamp_in_range(self@ + rhs@)
    }

    closed spec fn add_spec(self, rhs: Duration) -> Timestamp {
        Timestamp { nanos: (self.nanos + rhs.nanos) as i128 }
    }
}

impl Timestamp {
    /// The moment `rhs` later than `self`, where that lies in the supported
    /// calendar range; `None` where it does not.
    pub fn checked_plus(self, rhs: Duration) -> (r: Option<Timestamp>)
        ensures
            r is Some <==> timestamp_in_range(self@ + rhs@),
            r matches Some(t) ==> t@ == self@ + rhs@,
    {
        proof {
            use_type_invariant(&self);
            use_type_invariant(&rhs);
        }
        let sum = self.nanos + rhs.nanos;
        if sum < -377_705_116_800_000_000_000 || sum > 253_402_300_799_999_999_999 {
            None
        } else {
            Some(Timestamp { nanos: sum })
        }
    }

    /// The moment of a reading of the system clock: the nanoseconds after the
    /// Unix epoch (`Ok`) or before it (`Err`), clamped into the supported
    /// calendar range.
    pub fn from_clock_reading(reading: Result<u128, u128>) -> (r: Timestamp)
        ensures
            r@ == clamp_unix_nanos(clock_reading_nanos(reading)),
    {
        let nanos: i128 = match reading {
            Ok(after) => {
                if after > 253_402_300_799_999_999_999u128 {
                    253_402_300_799_999_999_999
                } else {
                    after as i128
                }
            },
            Err(before) => {
                if before > 377_705_116_800_000_000_000u128 {
                    -377_705_116_800_000_000_000
                } else {
                    -(before as i128)
                }
            },
        };
        Timestamp { nanos }
    }

    /// The current moment in UTC, read from the system clock at the edge (the
    /// clock adapter), never in the domain. A reading outside the supported
    /// calendar range is clamped to its nearest end. Which moment it is rests
    /// on the machine's clock: the result is the moment of some reading.
    pub fn now() -> (r: Timestamp)
        ensures
            timestamp_in_range(r@),
            exists|reading: Result<u128, u128>|
                r@ == clamp_unix_nanos(#[trigger] clock_reading_nanos(reading)),
    {
        let reading = system_clock_reading();
        let r = Self::from_clock_reading(reading);
        assert(r@ == clamp_unix_nanos(clock_reading_nanos(reading)));
        r
    }
}

/// The signed nanoseconds of a clock reading relative to the Unix epoch.
pub open spec fn clock_reading_nanos(reading: Result<u128, u128>) -> int {
    match reading {
        Ok(after) => after as int,
        Err(before) => -(before as int),
    }
}

/// `std::time::SystemTime::now()`, measured against `UNIX_EPOCH`: `Ok` with the
/// nanoseconds after the epoch, `Err` with those before it. The reading
/// depends on the machine's clock, so nothing is claimed of it.
#[verifier::external_body]
fn system_clock_reading() -> (r: Result<u128, u128>) {
    match std::time::SystemTime::now().duration_since(std::time::UNIX_EPOCH) {
        Ok(after) => Ok(after.as_nanos()),
        Err(e) => Err(e.duration().as_nanos()),
    }
}

/// Two moments with the same view are the same moment.
pub broadcast proof fn lemma_timestamp_view_injective(a: Timestamp, b: Timestamp)
    ensures
        #[trigger] a@ == #[trigger] b@ <==> a == b,
{
}

/// The view of a moment moved by a span, where the result lies in the
/// supported range, is the sum of their views.
pub broadcast proof fn lemma_timestamp_add(t: Timestamp, d: Duration)
    ensures
        timestamp_in_range(t@ + d@) ==> (#[trigger] AddSpec::add_spec(t, d))@ == t@ + d@,
{
}

/// Law: moving a moment by a span and measuring back from it gives the span,
/// where the moved moment lies in the supported range.
pub proof fn law_add_then_measure(t: Timestamp, d: Duration)
    requires
        timestamp_in_range(t@ + d@),
    ensures
        AddSpec::add_spec(t, d)@ - t@ == d@,
{
}

} // verus!
