//! Instants of the wall clock, and the time that has run between two of them.

use vstd::prelude::*;

verus! {

/// Nanoseconds in one second.
pub const NANOS_PER_SECOND: i128 = 1_000_000_000;

/// A point in time: whole seconds since the start of 1970 (UTC), and the
/// nanoseconds that have passed since that second began.
#[derive(Clone, Copy, Debug, PartialEq, Eq, Structural)]
pub struct Instant {
    pub secs: i64,
    pub nanos: u32,
}

/// The signed span between two instants, in nanoseconds.
#[derive(Clone, Copy, Debug, PartialEq, Eq, Structural)]
pub struct RunTime {
    pub nanos: i128,
}

/// One reading of the local clock: the instant, and that instant as local
/// date and time in text.
pub(crate) struct ClockReading {
    pub(crate) instant: Instant,
    pub(crate) local_text: String,
}

/// Whole seconds in a span of `nanos` nanoseconds, rounded towards zero.
pub open spec fn whole_seconds(nanos: int) -> int {
    if nanos >= 0 {
        nanos / (NANOS_PER_SECOND as int)
    } else {
        -((-nanos) / (NANOS_PER_SECOND as int))
    }
}

impl Instant {
    /// Nanoseconds since the start of 1970.
    pub open spec fn nanos_since_epoch(self) -> int {
        self.secs * NANOS_PER_SECOND + self.nanos
    }
}

impl RunTime {
    /// The span in nanoseconds.
    pub open spec fn view(self) -> int {
        self.nanos as int
    }

    /// The time that has run from `start` to `now`; negative where `now` is
    /// the earlier of the two.
    pub fn between(start: Instant, now: Instant) -> (run_time: RunTime)
        ensures
            run_time@ == now.nanos_since_epoch() - start.nanos_since_epoch(),
    {
        let from: i128 = start.secs as i128 * NANOS_PER_SECOND + start.nanos as i128;
        let to: i128 = now.secs as i128 * NANOS_PER_SECOND + now.nanos as i128;
        RunTime { nanos: to - from }
    }

    /// Whole seconds of the span, rounded towards zero.
    pub fn num_seconds(&self) -> (seconds: i128)
        ensures
            seconds == whole_seconds(self@),
    {
        if self.nanos >= 0 {
            self.nanos / NANOS_PER_SECOND
        } else if self.nanos == i128::MIN {
            let magnitude: u128 = (-(self.nanos + 1)) as u128 + 1;
            -((magnitude / 1_000_000_000) as i128)
        } else {
            -((-self.nanos) / NANOS_PER_SECOND)
        }
    }

    /// Whether the span is longer than `seconds` seconds. A span of exactly
    /// that length is not.
    pub fn exceeds(&self, seconds: i64) -> (longer: bool)
        ensures
            longer == (self@ > seconds * NANOS_PER_SECOND),
    {
        self.nanos > seconds as i128 * NANOS_PER_SECOND
    }
}

/// Reads the local clock through `chrono::Local::now`. The instant is taken
/// from `DateTime::timestamp` and `DateTime::timestamp_subsec_nanos`, the
/// text from the date-time's `Display`. Nothing is claimed of the reading:
/// it depends on the moment of the call and on the machine's time zone.
/// The call panics where `chrono` does: where the system clock stands before
/// 1970, or where the offset of the local time zone cannot be found.
#[verifier::external_body]
pub(crate) fn read_clock() -> (reading: ClockReading) {
    let now = chrono::Local::now();
    ClockReading {
        instant: Instant { secs: now.timestamp(), nanos: now.timestamp_subsec_nanos() },
        local_text: now.to_string(),
    }
}

} // verus!
