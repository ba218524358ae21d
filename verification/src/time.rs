//! Timestamps with second precision plus a subsecond part.
//!
//! Every record carries three of these (`created_at`, `updated_at`,
//! `deleted_at`). Record equality compares timestamps truncated to whole
//! seconds, so the subsecond part is kept but never takes part in
//! comparisons between records.

use vstd::prelude::*;

verus! {

/// A point in time: whole seconds since the epoch, plus nanoseconds within
/// the second. The value `secs == 0 && nanos == 0` (the epoch itself) is the
/// sentinel that `deleted_at` holds while a record is not soft-deleted.
#[derive(Clone, Copy, Debug, PartialEq, Eq, Structural)]
pub struct Timestamp {
    pub secs: i64,
    pub nanos: u32,
}

impl Timestamp {
    /// True when the two timestamps fall in the same whole second; the
    /// subsecond parts are not compared.
    pub open spec fn same_second(self, other: Timestamp) -> bool {
        self.secs == other.secs
    }

    /// The epoch sentinel used by `deleted_at` while a record is live.
    pub fn epoch() -> (t: Timestamp)
        ensures
            t == (Timestamp { secs: 0, nanos: 0 }),
    {
        Timestamp { secs: 0, nanos: 0 }
    }

    /// Second-precision comparison, the executable form of `same_second`.
    pub fn at_same_second(&self, other: &Timestamp) -> (r: bool)
        ensures
            r == self.same_second(*other),
    {
        self.secs == other.secs
    }
}

/// Relies on chrono::Utc::now for the current time, split into whole seconds
/// since the epoch and nanoseconds within the second. The clock decides the
/// value, so nothing is promised beyond the documented range of the
/// subsecond part (it may reach into a leap second).
#[verifier::external_body]
pub(crate) fn now() -> (t: Timestamp)
    ensures
        t.nanos < 2_000_000_000,
{
    let current = chrono::Utc::now();
    Timestamp { secs: current.timestamp(), nanos: current.timestamp_subsec_nanos() }
}

} // verus!
