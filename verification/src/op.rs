//! Operation deadline tracking: a start instant plus a timeout, with
//! checks against the monotonic clock.

use vstd::prelude::*;

use crate::error::{EResult, Error};
use std::time::Duration;
use std::time::Instant;

verus! {

/// The monotonic instant type, opaque to contracts.
#[verifier::external_type_specification]
#[verifier::external_body]
pub struct ExInstant(Instant);

/// The nanoseconds a duration holds; a pure function of the value, named
/// rather than spelled out.
pub uninterp spec fn duration_ns(d: Duration) -> nat;

/// Relies on `Instant::now`: the current monotonic instant.
#[verifier::external_body]
fn instant_now() -> Instant {
    Instant::now()
}

/// Relies on `Instant::elapsed`: the time since the instant; what it
/// returns depends on the clock, so nothing is promised of it.
#[verifier::external_body]
fn instant_elapsed(t: &Instant) -> Duration {
    t.elapsed()
}

/// Relies on `Duration::as_nanos`: the duration's total nanoseconds; a
/// duration never exceeds `u64::MAX` seconds plus a fraction of one.
#[verifier::external_body]
fn dur_as_nanos(d: &Duration) -> (r: u128)
    ensures
        r == duration_ns(*d),
        r <= u64::MAX as u128 * 1_000_000_000 + 999_999_999,
{
    d.as_nanos()
}

/// Relies on `Duration::from_millis`: a duration of that many
/// milliseconds.
#[verifier::external_body]
pub(crate) fn dur_from_millis(ms: u64) -> (r: Duration)
    ensures
        duration_ns(r) == ms * 1_000_000,
{
    Duration::from_millis(ms)
}

/// Relies on `Duration::checked_sub`: the difference when the second
/// duration is no longer than the first.
#[verifier::external_body]
fn dur_sub(a: &Duration, b: &Duration) -> (r: Duration)
    requires
        duration_ns(*b) <= duration_ns(*a),
    ensures
        duration_ns(r) == duration_ns(*a) - duration_ns(*b),
{
    a.checked_sub(*b).unwrap_or(Duration::ZERO)
}

/// One operation in progress: when it started and how long it may run.
pub struct Op {
    t: Instant,
    timeout: Duration,
}

impl Op {
    /// The allowed running time, as contracts see it.
    pub closed spec fn spec_timeout(&self) -> Duration {
        self.timeout
    }

    /// Starts the clock now.
    #[inline]
    pub fn new(timeout: Duration) -> (r: Self)
        ensures
            r.spec_timeout() == timeout,
    {
        Self { t: instant_now(), timeout }
    }

    /// Adopts an already-running clock.
    #[inline]
    pub fn for_instant(t: Instant, timeout: Duration) -> (r: Self)
        ensures
            r.spec_timeout() == timeout,
    {
        Self { t, timeout }
    }

    /// More time has passed than the operation was allowed.
    pub fn is_timed_out(&self) -> bool {
        let el = instant_elapsed(&self.t);
        dur_as_nanos(&el) > dur_as_nanos(&self.timeout)
    }

    /// The time still left, or a timeout error when none is.
    pub fn timeout(&self) -> (r: EResult<Duration>)
        ensures
            r matches Err(e) ==> e.spec_kind() == crate::ErrorKind::Timeout,
            r matches Ok(d) ==> duration_ns(d) <= duration_ns(self.spec_timeout()),
    {
        let el = instant_elapsed(&self.t);
        if dur_as_nanos(&el) > dur_as_nanos(&self.timeout) {
            Err(Error::timeout())
        } else {
            Ok(dur_sub(&self.timeout, &el))
        }
    }

    /// At least the expected time is still left.
    pub fn is_enough(&self, expected: Duration) -> bool {
        let el = instant_elapsed(&self.t);
        dur_as_nanos(&el) + dur_as_nanos(&expected) < dur_as_nanos(&self.timeout)
    }

    /// As `is_enough`, as a result: a timeout error when too little time
    /// is left.
    pub fn enough(&self, expected: Duration) -> (r: EResult<()>)
        ensures
            r matches Err(e) ==> e.spec_kind() == crate::ErrorKind::Timeout,
    {
        if self.is_enough(expected) {
            Ok(())
        } else {
            Err(Error::timeout())
        }
    }

    /// The time left out of the given allowance, or a timeout error when
    /// more than that has already passed.
    pub fn remaining(&self, timeout: Duration) -> (r: EResult<Duration>)
        ensures
            r matches Err(e) ==> e.spec_kind() == crate::ErrorKind::Timeout,
            r matches Ok(d) ==> duration_ns(d) <= duration_ns(timeout),
    {
        let el = instant_elapsed(&self.t);
        if dur_as_nanos(&el) > dur_as_nanos(&timeout) {
            Err(Error::timeout())
        } else {
            Ok(dur_sub(&timeout, &el))
        }
    }
}

} // verus!
