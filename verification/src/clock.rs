//! Points in time are nanoseconds on a monotonic clock; spans of time are nanoseconds too.

use vstd::prelude::*;

verus! {

/// `seconds` in nanoseconds.
pub open spec fn nanos(seconds: nat) -> nat {
    seconds * 1_000_000_000
}

/// The whole seconds in `span` nanoseconds.
pub open spec fn whole_seconds(span: nat) -> nat {
    span / 1_000_000_000
}

/// The span between `since` and `now`; none if `now` lies before `since`.
pub open spec fn elapsed(since: u64, now: u64) -> nat {
    if now >= since {
        (now - since) as nat
    } else {
        0
    }
}

/// `seconds` in nanoseconds.
pub fn nanos_of(seconds: u64) -> (r: u128)
    ensures
        r == nanos(seconds as nat),
{
    seconds as u128 * 1_000_000_000
}

/// The span between `since` and `now`.
pub fn nanos_between(since: u64, now: u64) -> (r: u64)
    ensures
        r == elapsed(since, now),
{
    if now >= since {
        now - since
    } else {
        0
    }
}

} // verus!
