//! Clock arithmetic of the user-space tools: the clock and resource readings
//! themselves come from the operating system, their conversion is here.

use vstd::prelude::*;

verus! {

/// A monotonic clock reading in nanoseconds from its seconds and nanoseconds.
pub fn ns_from_timespec(sec: u64, nsec: u64) -> (r: u64)
    requires
        sec * 1_000_000_000 + nsec <= u64::MAX,
    ensures
        r == sec * 1_000_000_000 + nsec,
{
    sec * 1_000_000_000 + nsec
}

/// A CPU time in microseconds from its seconds and microseconds.
pub fn us_from_timeval(sec: u64, usec: u64) -> (r: u64)
    requires
        sec * 1_000_000 + usec <= u64::MAX,
    ensures
        r == sec * 1_000_000 + usec,
{
    sec * 1_000_000 + usec
}

/// User and system CPU time of the process in microseconds, from the two
/// time values of a resource-usage reading.
pub fn cpu_time_us(user_sec: u64, user_usec: u64, sys_sec: u64, sys_usec: u64) -> (r: (u64, u64))
    requires
        user_sec * 1_000_000 + user_usec <= u64::MAX,
        sys_sec * 1_000_000 + sys_usec <= u64::MAX,
    ensures
        r.0 == user_sec * 1_000_000 + user_usec,
        r.1 == sys_sec * 1_000_000 + sys_usec,
{
    (us_from_timeval(user_sec, user_usec), us_from_timeval(sys_sec, sys_usec))
}

} // verus!
