//! Wall-clock time. The current time is an outside value: callers state
//! what holds for every instant that may come back.

use vstd::prelude::*;

verus! {

/// An instant in UTC: whole seconds since the Unix epoch and the nanoseconds
/// past that second.
#[derive(Debug, Clone, Copy, PartialEq, Eq, Structural)]
pub struct UtcInstant {
    pub secs: i64,
    pub nanos: u32,
}

impl UtcInstant {
    /// Nanoseconds since the epoch.
    pub open spec fn total_nanos(self) -> int {
        self.secs * 1_000_000_000 + self.nanos
    }
}

/// The whole seconds from `from` to `to`, rounded toward zero, as
/// `(to - from).num_seconds()` gives them for two `chrono::DateTime`s.
pub open spec fn whole_seconds_between(from: UtcInstant, to: UtcInstant) -> int {
    let d = to.total_nanos() - from.total_nanos();
    if d >= 0 {
        d / 1_000_000_000
    } else {
        -((-d) / 1_000_000_000)
    }
}

/// `chrono::Utc::now()`, read back as its timestamp and sub-second
/// nanoseconds. chrono builds it from `SystemTime::now()` and panics for a
/// clock before the epoch, and a `DateTime<Utc>` lies within years
/// -262143..=262143, so the seconds are non-negative and below 10^13; the
/// nanoseconds come from `Duration::subsec_nanos`, below 10^9. Nothing else
/// about the instant is promised.
#[verifier::external_body]
pub(crate) fn now_utc() -> (t: UtcInstant)
    ensures
        0 <= t.secs < 10_000_000_000_000i64,
        t.nanos < 1_000_000_000,
{
    let now = chrono::Utc::now();
    UtcInstant { secs: now.timestamp(), nanos: now.timestamp_subsec_nanos() }
}

} // verus!
