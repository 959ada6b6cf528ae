//! Conversion of a millisecond timeout into the kernel's native two-field
//! (seconds, nanoseconds) representation.

use vstd::prelude::*;

verus! {

/// The native timeout: whole seconds and the remaining nanoseconds, with the
/// field widths of the Darwin family.
#[derive(Clone, Copy, Debug, PartialEq, Eq, Structural)]
pub struct TimeSpec {
    pub tv_sec: i64,
    pub tv_nsec: i64,
}

/// Turns a millisecond count into the native representation: the seconds
/// field is the truncating division by 1000, the nanosecond field the
/// remainder scaled to nanoseconds. Pure, total, and exact to the
/// millisecond; a caller needing finer grain builds a `TimeSpec` directly.
pub fn to_native(timeout_ms: usize) -> (r: TimeSpec)
    ensures
        r.tv_sec == timeout_ms as int / 1000,
        r.tv_nsec == (timeout_ms as int % 1000) * 1_000_000,
{
    let tv_sec: i64 = (timeout_ms / 1000) as i64;
    let tv_nsec: i64 = ((timeout_ms % 1000) * 1_000_000) as i64;
    TimeSpec { tv_sec, tv_nsec }
}

} // verus!
