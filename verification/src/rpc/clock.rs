//! Points in time.

use std::time::Duration;
use tokio::time::Instant;
use vstd::prelude::*;

verus! {

/// A point in time of `tokio`, whose inside stays hidden.
#[verifier::external_type_specification]
#[verifier::external_body]
pub struct ExInstant(Instant);

/// The point in time that lies a duration after another one, if it can be represented.
pub uninterp spec fn instant_after(start: Instant, duration: Duration) -> Option<Instant>;

/// The number of nanoseconds from an origin to a point in time, zero if that lies before.
pub uninterp spec fn nanos_between(origin: Instant, instant: Instant) -> u128;

/// `Instant::now`: the present. Nothing is said of it: it depends on the clock.
pub assume_specification[ Instant::now ]() -> Instant
    opens_invariants none
;

/// Whether a point in time was read from the clock. Nothing else is known of such a point in time,
/// but only [`read_clock`] vouches for one.
pub closed spec fn is_reading(instant: Instant) -> bool {
    true
}

/// Reads the clock.
pub fn read_clock() -> (now: Instant)
    ensures
        is_reading(now),
    opens_invariants none
{
    Instant::now()
}

/// `Instant::checked_add`: the point in time that lies the duration later. There is none if it
/// is past what the machine can represent; where that begins is not said.
pub assume_specification[ Instant::checked_add ](start: &Instant, duration: Duration) -> (res:
    Option<Instant>)
    ensures
        res == instant_after(*start, duration),
    opens_invariants none
;

/// `Instant::saturating_duration_since`, as a number of nanoseconds.
#[verifier::external_body]
pub(crate) fn nanos_since(origin: Instant, instant: Instant) -> (nanos: u128)
    ensures
        nanos == nanos_between(origin, instant),
    opens_invariants none
{
    instant.saturating_duration_since(origin).as_nanos()
}

} // verus!
