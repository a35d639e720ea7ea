//! The system clock.

use vstd::prelude::*;

use crate::application::ports::Clock;
use crate::shared::time::{clamp_unix_nanos, clock_reading_nanos, timestamp_in_range, Timestamp};

verus! {

/// The system clock (UTC).
pub struct SystemClock;

impl Clock for SystemClock {
    /// The moment of a reading of the system clock, clamped into the
    /// supported calendar range ([`Timestamp::now`]).
    fn now(&self) -> (r: Timestamp)
        ensures
            timestamp_in_range(r@),
            exists|reading: Result<u128, u128>|
                r@ == clamp_unix_nanos(#[trigger] clock_reading_nanos(reading)),
    {
        Timestamp::now()
    }
}

} // verus!
