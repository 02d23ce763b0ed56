//! The few facts this library takes from the host: fresh identifiers, the
//! wall clock, and whole-second durations. None of these items is proved;
//! each states only what the called function documents.

use vstd::prelude::*;

verus! {

/// Mask selecting the version nibble and the two variant bits of a UUID
/// written as a big-endian 128-bit integer.
pub const UUID_KIND_MASK: u128 = 0x0000_0000_0000_F000_C000_0000_0000_0000u128;

/// Version 4 ("random"), variant RFC 4122, at the positions of
/// [`UUID_KIND_MASK`].
pub const UUID_KIND_RANDOM: u128 = 0x0000_0000_0000_4000_8000_0000_0000_0000u128;

/// True when `bits` carries the version and variant marks of a random UUID.
pub open spec fn is_random_uuid(bits: u128) -> bool {
    bits & UUID_KIND_MASK == UUID_KIND_RANDOM
}

/// A point in time as seconds and nanoseconds since the Unix epoch, UTC.
#[derive(Debug, Clone, Copy, PartialEq, Eq, Hash, Structural)]
pub struct Timestamp {
    pub secs: i64,
    pub nanos: u32,
}

impl Timestamp {
    /// Chronological order: earlier or equal.
    pub open spec fn spec_not_after(self, other: Timestamp) -> bool {
        self.secs < other.secs || (self.secs == other.secs && self.nanos <= other.nanos)
    }

    /// Whether `self` is no later than `other`.
    pub fn not_after(&self, other: &Timestamp) -> (r: bool)
        ensures
            r == self.spec_not_after(*other),
    {
        self.secs < other.secs || (self.secs == other.secs && self.nanos <= other.nanos)
    }

    /// The current time.
    pub fn now() -> (t: Timestamp)
        ensures
            t.secs >= 0,
            t.nanos < 1_000_000_000,
    {
        utc_now()
    }
}

/// Calls `uuid::Uuid::new_v4` and returns the identifier as an integer.
/// Trusted: the value is random, but `new_v4` always sets the version nibble
/// to 4 and the variant bits to `10`.
#[verifier::external_body]
pub(crate) fn fresh_uuid_bits() -> (bits: u128)
    ensures
        is_random_uuid(bits),
{
    uuid::Uuid::new_v4().as_u128()
}

/// Calls `chrono::Utc::now`. Trusted: `now` builds its value from the time
/// elapsed since the Unix epoch, so the seconds are not negative and the
/// nanoseconds stay below one second.
#[verifier::external_body]
pub(crate) fn utc_now() -> (t: Timestamp)
    ensures
        t.secs >= 0,
        t.nanos < 1_000_000_000,
{
    let now = chrono::Utc::now();
    Timestamp { secs: now.timestamp(), nanos: now.timestamp_subsec_nanos() }
}

/// The duration that `Duration::from_secs` builds from a number of seconds.
pub uninterp spec fn whole_seconds(secs: u64) -> core::time::Duration;

/// `Duration::from_secs` is a function of its argument alone.
pub assume_specification[ core::time::Duration::from_secs ](secs: u64) -> (d: core::time::Duration)
    ensures
        d == whole_seconds(secs),
;

/// Cloning a `Duration` copies it.
pub assume_specification[ <core::time::Duration as Clone>::clone ](
    d: &core::time::Duration,
) -> (r: core::time::Duration)
    ensures
        r == *d,
;

} // verus!
