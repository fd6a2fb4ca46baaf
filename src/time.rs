//! Instants and the clock.
use vstd::prelude::*;

verus! {

/// An instant in UTC, in milliseconds since the Unix epoch.
#[derive(Clone, Copy, Debug, PartialEq, Eq, Structural)]
pub struct Timestamp {
    pub millis: i64,
}

impl Timestamp {
    pub fn from_millis(millis: i64) -> (r: Timestamp)
        ensures
            r.millis == millis,
    {
        Timestamp { millis }
    }

    /// Milliseconds from `self` until `later`; `later` must not lie before `self`.
    pub fn millis_until(&self, later: &Timestamp) -> (r: u64)
        requires
            self.millis <= later.millis,
        ensures
            r == later.millis - self.millis,
    {
        ((later.millis as i128) - (self.millis as i128)) as u64
    }
}

/// Relies on chrono's `From<SystemTime> for DateTime<Utc>`, applied to the
/// system clock, and read as milliseconds by chrono::DateTime::timestamp_millis.
/// Instants before the epoch are converted too, so nothing is promised of the
/// value: it is whatever the clock reads.
#[verifier::external_body]
pub(crate) fn current_time() -> (r: Timestamp) {
    let now = chrono::DateTime::<chrono::Utc>::from(std::time::SystemTime::now());
    Timestamp { millis: now.timestamp_millis() }
}

} // verus!
