//! Wall-clock and monotonic time as integer seconds and nanoseconds.

use vstd::prelude::*;

verus! {

/// A point in time: whole seconds and the nanosecond remainder.
#[derive(Debug, Clone, Copy, PartialEq, Eq, Structural)]
pub struct Time {
    sec: u64,
    nsec: u64,
}

/// Relies on `nix::time::clock_gettime` with the real-time clock: returns
/// seconds and nanoseconds since the epoch, the nanosecond part below one
/// second. The call cannot fail for this clock id.
#[verifier::external_body]
fn clock_realtime() -> (r: (u64, u64))
    ensures
        r.1 < 1_000_000_000,
{
    let t = nix::time::clock_gettime(nix::time::ClockId::CLOCK_REALTIME).unwrap();
    (t.tv_sec() as u64, t.tv_nsec() as u64)
}

/// Relies on `nix::time::clock_gettime` with the monotonic clock: returns
/// seconds and nanoseconds since an arbitrary start, the nanosecond part
/// below one second. The call cannot fail for this clock id.
#[verifier::external_body]
fn clock_monotonic() -> (r: (u64, u64))
    ensures
        r.1 < 1_000_000_000,
{
    let t = nix::time::clock_gettime(nix::time::ClockId::CLOCK_MONOTONIC).unwrap();
    (t.tv_sec() as u64, t.tv_nsec() as u64)
}

impl Time {
    /// The seconds part, as contracts see it.
    pub closed spec fn spec_sec(&self) -> u64 {
        self.sec
    }

    /// The nanoseconds part, as contracts see it.
    pub closed spec fn spec_nsec(&self) -> u64 {
        self.nsec
    }

    /// The whole value in nanoseconds, unbounded.
    pub open spec fn spec_total_ns(&self) -> int {
        self.spec_sec() * 1_000_000_000 + self.spec_nsec()
    }

    #[inline]
    pub fn new(sec: u64, nsec: u64) -> (r: Self)
        ensures
            r.spec_sec() == sec,
            r.spec_nsec() == nsec,
    {
        Self { sec, nsec }
    }

    /// The current wall-clock time.
    pub fn now() -> (r: Self)
        ensures
            r.spec_nsec() < 1_000_000_000,
    {
        let (sec, nsec) = clock_realtime();
        Self { sec, nsec }
    }

    /// The current monotonic time.
    pub fn now_monotonic() -> (r: Self)
        ensures
            r.spec_nsec() < 1_000_000_000,
    {
        let (sec, nsec) = clock_monotonic();
        Self { sec, nsec }
    }

    #[inline]
    pub fn from_timestamp_ns(timestamp_ns: u64) -> (r: Self)
        ensures
            r.spec_sec() == timestamp_ns / 1_000_000_000,
            r.spec_nsec() == timestamp_ns % 1_000_000_000,
            r.spec_total_ns() == timestamp_ns,
    {
        Self {
            sec: timestamp_ns / 1_000_000_000,
            nsec: timestamp_ns % 1_000_000_000,
        }
    }

    #[inline]
    pub fn from_timestamp_us(timestamp_us: u64) -> (r: Self)
        ensures
            r.spec_sec() == timestamp_us / 1_000_000,
            r.spec_nsec() == timestamp_us % 1_000_000 * 1_000,
    {
        Self {
            sec: timestamp_us / 1_000_000,
            nsec: timestamp_us % 1_000_000 * 1_000,
        }
    }

    #[inline]
    pub fn from_timestamp_ms(timestamp_ms: u64) -> (r: Self)
        ensures
            r.spec_sec() == timestamp_ms / 1_000,
            r.spec_nsec() == timestamp_ms % 1_000 * 1_000_000,
    {
        Self {
            sec: timestamp_ms / 1_000,
            nsec: timestamp_ms % 1_000 * 1_000_000,
        }
    }

    #[inline]
    pub fn timestamp_sec(&self) -> (r: u64)
        ensures
            r == self.spec_sec(),
    {
        self.sec
    }

    /// The value in nanoseconds; the caller must know it fits.
    #[inline]
    pub fn timestamp_ns(&self) -> (r: u64)
        requires
            self.spec_total_ns() <= u64::MAX,
        ensures
            r == self.spec_total_ns(),
    {
        self.sec * 1_000_000_000 + self.nsec
    }

    /// The value in microseconds; the caller must know it fits.
    #[inline]
    pub fn timestamp_us(&self) -> (r: u64)
        requires
            self.spec_sec() * 1_000_000 + self.spec_nsec() / 1_000 <= u64::MAX,
        ensures
            r == self.spec_sec() * 1_000_000 + self.spec_nsec() / 1_000,
    {
        self.sec * 1_000_000 + self.nsec / 1_000
    }

    /// The value in milliseconds; the caller must know it fits.
    #[inline]
    pub fn timestamp_ms(&self) -> (r: u64)
        requires
            self.spec_sec() * 1_000 + self.spec_nsec() / 1_000_000 <= u64::MAX,
        ensures
            r == self.spec_sec() * 1_000 + self.spec_nsec() / 1_000_000,
    {
        self.sec * 1_000 + self.nsec / 1_000_000
    }
}

/// Seconds and nanoseconds combined into nanoseconds, saturating at the
/// largest representable value.
pub fn ns_of_parts(sec: u64, nsec: u64) -> (r: u64)
    ensures
        r == if sec * 1_000_000_000 + nsec <= u64::MAX {
            sec * 1_000_000_000 + nsec
        } else {
            u64::MAX as int
        },
{
    proof {
        assert((sec as u128) * 1_000_000_000 + (nsec as u128) < u128::MAX)
            by (nonlinear_arith);
    }
    let wide: u128 = sec as u128 * 1_000_000_000 + nsec as u128;
    if wide > u64::MAX as u128 {
        u64::MAX
    } else {
        wide as u64
    }
}

/// The current monotonic time in whole seconds.
pub fn monotonic() -> u64 {
    Time::now_monotonic().timestamp_sec()
}

/// The current monotonic time in nanoseconds, saturating.
pub fn monotonic_ns() -> u64 {
    let t = Time::now_monotonic();
    ns_of_parts(t.timestamp_sec(), t.nsec_part())
}

/// The current wall-clock time in whole seconds.
pub fn now() -> u64 {
    Time::now().timestamp_sec()
}

/// The current wall-clock time in nanoseconds, saturating.
pub fn now_ns() -> u64 {
    let t = Time::now();
    ns_of_parts(t.timestamp_sec(), t.nsec_part())
}

impl Time {
    /// The nanoseconds part alone.
    #[inline]
    pub fn nsec_part(&self) -> (r: u64)
        ensures
            r == self.spec_nsec(),
    {
        self.nsec
    }
}

} // verus!
