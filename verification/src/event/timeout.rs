//! The poll timeout: a deadline tracker bounding total wait time for a
//! match, based on the monotonic clock.

use core::time::Duration;
use vstd::prelude::*;

verus! {

/// `std::time::Instant` is an opaque reading of the monotonic clock; this
/// library only ever asks how it relates to the clock's current value.
#[verifier::external_type_specification]
#[verifier::external_body]
pub struct ExInstant(std::time::Instant);

/// Relies on `std::time::Instant::now`: reads the monotonic clock, which is
/// immune to wall-clock adjustment. Nothing can be promised of the value.
#[verifier::external_body]
fn instant_now() -> std::time::Instant {
    std::time::Instant::now()
}

/// Relies on `std::time::Instant::elapsed` and `Duration`'s ordering: answers
/// whether at least `timeout` has passed since `start` on the monotonic
/// clock. The answer depends on the clock, so nothing is promised of it.
#[verifier::external_body]
fn has_elapsed(start: &std::time::Instant, timeout: &Duration) -> bool {
    start.elapsed() >= *timeout
}

/// Tracks a deadline derived from an optional total-wait duration, capturing
/// the creation instant. No duration means "no deadline".
pub struct PollTimeout {
    timeout: Option<Duration>,
    start: std::time::Instant,
}

impl PollTimeout {
    /// True when this tracker was built without a deadline ("wait forever").
    pub closed spec fn is_unbounded(&self) -> bool {
        self.timeout is None
    }

    /// Build a tracker for the given optional total-wait duration.
    pub fn new(timeout: Option<Duration>) -> (r: Self)
        ensures
            r.is_unbounded() == (timeout is None),
    {
        PollTimeout { timeout, start: instant_now() }
    }

    /// Whether the deadline has passed. A tracker built without a deadline
    /// never reports it as elapsed.
    pub fn elapsed(&self) -> (r: bool)
        ensures
            self.is_unbounded() ==> !r,
    {
        match &self.timeout {
            Some(timeout) => has_elapsed(&self.start, timeout),
            None => false,
        }
    }
}

} // verus!
