//! Instants and durations on a microsecond time base.
//!
//! Both are plain tick counts of the caller's monotonic clock, one tick per
//! microsecond. The arithmetic on them is fugit's: the functions at the end of this
//! file hand the ticks to `fugit::Instant<u64, 1, 1_000_000>` and
//! `fugit::Duration<u64, 1, 1_000_000>` and bring the result back as ticks. Their
//! contracts are not proved here; they restate what fugit's source does.

use vstd::prelude::*;

verus! {

/// Ticks in one millisecond.
pub const TICKS_PER_MILLI: u64 = 1_000;

/// The longest span between two instants that can be measured, in ticks: half of the
/// range of the tick counter. fugit takes instants that lie further apart for the two
/// sides of a counter that has wrapped around, and refuses to subtract them.
pub const MAX_SPAN: u64 = 0x7FFF_FFFF_FFFF_FFFF;

/// A point in time: ticks of the caller's clock since it started.
#[derive(Clone, Copy, Debug, PartialEq, Eq)]
pub struct Instant {
    pub ticks: u64,
}

/// A length of time in ticks.
#[derive(Clone, Copy, Debug, PartialEq, Eq)]
pub struct Duration {
    pub ticks: u64,
}

/// Whether the span from `earlier` to `later` can be measured: `later` is not before
/// `earlier`, and at most [`MAX_SPAN`] ticks after it.
pub open spec fn measurable(later: nat, earlier: nat) -> bool {
    earlier <= later <= earlier + MAX_SPAN
}

/// The number of ticks in `ms` milliseconds.
pub open spec fn millis_in_ticks(ms: nat) -> nat {
    ms * TICKS_PER_MILLI as nat
}

/// Calls fugit's `ExtU64::millis` for the microsecond base. In fugit's source this is
/// `Duration::millis`, which multiplies the argument by the thousand ticks of a
/// millisecond (the reduced ratio of the two bases) and divides by one. The product is
/// taken in `u64`; arguments for which it overflows are excluded.
#[verifier::external_body]
pub(crate) fn millis(ms: u64) -> (d: Duration)
    requires
        millis_in_ticks(ms as nat) <= u64::MAX,
    ensures
        d.ticks == millis_in_ticks(ms as nat),
{
    let d: fugit::Duration<u64, 1, 1_000_000> = fugit::ExtU64::millis(ms);
    Duration { ticks: d.ticks() }
}

/// Calls fugit's `Instant - Instant` (`Sub::sub`) for the microsecond base. In fugit's
/// source the subtraction panics when the wrapping difference of the ticks exceeds
/// half of the `u64` range, and otherwise returns that difference as a duration. For
/// a `later` that is not before `earlier` the wrapping difference is the plain one.
#[verifier::external_body]
pub(crate) fn span_between(later: Instant, earlier: Instant) -> (span: Duration)
    requires
        measurable(later.ticks as nat, earlier.ticks as nat),
    ensures
        span.ticks == later.ticks - earlier.ticks,
{
    let a = fugit::Instant::<u64, 1, 1_000_000>::from_ticks(later.ticks);
    let b = fugit::Instant::<u64, 1, 1_000_000>::from_ticks(earlier.ticks);
    Duration { ticks: (a - b).ticks() }
}

/// Calls fugit's `>` on two durations of the microsecond base (`PartialOrd::gt` over
/// `Duration::partial_cmp`). In fugit's source two durations of one base are ordered
/// by their ticks.
#[verifier::external_body]
pub(crate) fn longer_than(span: Duration, limit: Duration) -> (longer: bool)
    ensures
        longer == (span.ticks > limit.ticks),
{
    let a = fugit::Duration::<u64, 1, 1_000_000>::from_ticks(span.ticks);
    let b = fugit::Duration::<u64, 1, 1_000_000>::from_ticks(limit.ticks);
    a > b
}

} // verus!
