//! Points in time.
//!
//! What an approval is created at is told by the wall clock. How long a grant
//! lasts and how long ago a gateway polled is told by a clock that never runs
//! backwards: a point of it is a number of nanoseconds since an origin.

use vstd::prelude::*;

verus! {

/// A point of the wall clock, in UTC: whole seconds since 1970, and the
/// nanoseconds after them. During a leap second the nanoseconds exceed a second.
#[derive(Clone, Copy, Debug, PartialEq, Eq, Structural)]
pub struct UtcTime {
    pub secs: i64,
    pub nanos: u32,
}

impl UtcTime {
    /// Whether this point is earlier than `other`.
    pub open spec fn earlier(self, other: UtcTime) -> bool {
        self.secs < other.secs || (self.secs == other.secs && self.nanos < other.nanos)
    }

    /// Whether this point is earlier than `other`.
    pub fn is_before(&self, other: &UtcTime) -> (r: bool)
        ensures
            r == self.earlier(*other),
    {
        self.secs < other.secs || (self.secs == other.secs && self.nanos < other.nanos)
    }
}

/// `chrono::Utc::now`, as seconds and nanoseconds. Which point it is depends on
/// the clock; the nanoseconds stay below two seconds. A clock that is set to
/// before 1970 makes the call panic.
#[verifier::external_body]
pub(crate) fn utc_now() -> (r: UtcTime)
    ensures
        r.nanos < 2_000_000_000,
{
    let now = chrono::Utc::now();
    UtcTime { secs: now.timestamp(), nanos: now.timestamp_subsec_nanos() }
}

/// `tokio::time::Instant`, carried through as it is.
#[verifier::external_type_specification]
#[verifier::external_body]
pub struct ExInstant(tokio::time::Instant);

/// `tokio::time::Instant::now`: the present point of the monotonic clock.
pub assume_specification[ tokio::time::Instant::now ]() -> tokio::time::Instant;

/// The most nanoseconds that a `std::time::Duration` can hold.
pub open spec fn longest_duration() -> int {
    u64::MAX * 1_000_000_000 + 999_999_999
}

/// `tokio::time::Instant::elapsed`, in nanoseconds. How many there are depends
/// on the clock; a `std::time::Duration` holds them.
#[verifier::external_body]
pub(crate) fn elapsed_nanos(origin: &tokio::time::Instant) -> (r: u128)
    ensures
        r <= longest_duration(),
{
    origin.elapsed().as_nanos()
}

/// Of two points in time one is before the other, or they are the same; and no point is
/// before itself. The seconds count first, then the nanoseconds.
pub proof fn time_is_ordered(a: UtcTime, b: UtcTime, ab: bool, ba: bool)
    requires
        call_ensures(UtcTime::is_before, (&a, &b), ab),
        call_ensures(UtcTime::is_before, (&b, &a), ba),
    ensures
        !(ab && ba),
        ab || ba || a == b,
        a.secs < b.secs ==> ab,
        a.secs == b.secs && a.nanos < b.nanos ==> ab,
{
}

} // verus!
