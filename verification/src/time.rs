//! Points in time and spans between them, in nanoseconds.
use vstd::prelude::*;

verus! {

/// A point in time: nanoseconds on a clock that never goes back, since some fixed start.
pub type Instant = u64;

pub const NANOS_PER_MILLI: u64 = 1_000_000;

pub const NANOS_PER_SEC: u64 = 1_000_000_000;

/// The time from `since` until `now`, which is nothing if `since` has not come yet.
pub open spec fn time_since(since: Instant, now: Instant) -> int {
    if now > since {
        now - since
    } else {
        0
    }
}

/// The whole seconds from `since` until `now`.
pub open spec fn secs_since(since: Instant, now: Instant) -> int {
    time_since(since, now) / (NANOS_PER_SEC as int)
}

/// The time from `since` until `now`.
pub fn elapsed(since: Instant, now: Instant) -> (r: u64)
    ensures
        r == time_since(since, now),
{
    if now > since {
        now - since
    } else {
        0
    }
}

/// The whole seconds from `since` until `now`.
pub fn elapsed_secs(since: Instant, now: Instant) -> (r: u64)
    ensures
        r == secs_since(since, now),
{
    elapsed(since, now) / NANOS_PER_SEC
}

/// A moment of universal time.
#[derive(Debug, Clone, Copy, PartialEq, Eq, Structural)]
pub struct UtcTime {
    /// Whole seconds since 1970.
    pub secs: i64,
    /// Nanoseconds since the last whole second.
    pub nanos: u32,
}

impl UtcTime {
    /// Nanoseconds since 1970.
    pub open spec fn total_nanos(self) -> int {
        self.secs * (NANOS_PER_SEC as int) + self.nanos
    }

    /// Whole milliseconds since 1970.
    pub open spec fn total_millis(self) -> int {
        self.secs * 1000 + self.nanos as int / (NANOS_PER_MILLI as int)
    }
}

/// The time that has passed is the difference of the two points in time, and nothing has passed
/// before the first. So many whole seconds have passed exactly if the difference is that long.
pub proof fn passed_time_is_the_difference(since: Instant, now: Instant, n: int)
    requires
        n >= 1,
    ensures
        since <= now ==> since + time_since(since, now) == now,
        now <= since ==> time_since(since, now) == 0,
        secs_since(since, now) >= n <==> now - since >= n * 1_000_000_000,
        secs_since(since, now) >= 0,
{
}

/// A moment is its whole seconds and the rest, and lies within the millisecond that it is given as.
pub proof fn moments_are_counted_from_1970(t: UtcTime)
    ensures
        t.total_nanos() - t.nanos == t.secs * 1_000_000_000,
        t.total_millis() * 1_000_000 <= t.total_nanos() < (t.total_millis() + 1) * 1_000_000,
{
}

} // verus!
