//! Refresh policy for the cached access token.
//!
//! All instants and durations are whole milliseconds on one monotonic clock.

use vstd::prelude::*;

verus! {

/// Smallest refresh margin, in seconds.
pub const MIN_THRESHOLD_SECS: u64 = 1;

/// Largest refresh margin, in seconds.
pub const MAX_THRESHOLD_SECS: u64 = 120;

/// `x` limited to the closed range from `lo` to `hi`.
pub open spec fn clamp(x: int, lo: int, hi: int) -> int {
    if x < lo {
        lo
    } else if x > hi {
        hi
    } else {
        x
    }
}

/// The refresh margin for a token that lives `ttl_ms` milliseconds: a tenth of
/// its whole seconds, at least one second and at most two minutes.
pub open spec fn refresh_threshold_secs(ttl_ms: int) -> int {
    clamp((ttl_ms / 1000) / 10, 1, 120)
}

/// Whether a token fetched at `fetched_at` with lifetime `ttl`, seen at `now`,
/// is within its refresh margin or past its end.
pub open spec fn refresh_due(now: int, fetched_at: int, ttl: int) -> bool {
    now + refresh_threshold_secs(ttl) * 1000 >= fetched_at + ttl
}

/// The lifetime in milliseconds recorded for a token that expires
/// `remaining_secs` seconds from now: at least one second, and no more than a
/// `u64` holds.
pub open spec fn ttl_from_remaining(remaining_secs: int) -> int {
    let secs = if remaining_secs < 1 {
        1
    } else {
        remaining_secs
    };
    if secs * 1000 > u64::MAX {
        u64::MAX as int
    } else {
        secs * 1000
    }
}

/// Computes the refresh margin, in seconds, of a token lifetime.
pub fn refresh_threshold(ttl_ms: u64) -> (secs: u64)
    ensures
        secs == refresh_threshold_secs(ttl_ms as int),
        MIN_THRESHOLD_SECS <= secs <= MAX_THRESHOLD_SECS,
{
    let tenth: u64 = (ttl_ms / 1000) / 10;
    if tenth < MIN_THRESHOLD_SECS {
        MIN_THRESHOLD_SECS
    } else if tenth > MAX_THRESHOLD_SECS {
        MAX_THRESHOLD_SECS
    } else {
        tenth
    }
}

/// Decides whether a token must be refreshed before it is used at `now`.
pub fn needs_refresh(now: u64, fetched_at: u64, ttl: u64) -> (due: bool)
    ensures
        due == refresh_due(now as int, fetched_at as int, ttl as int),
{
    let margin: u128 = (refresh_threshold(ttl) as u128) * 1000;
    let lhs: u128 = now as u128 + margin;
    let rhs: u128 = fetched_at as u128 + ttl as u128;
    lhs >= rhs
}

/// Turns the seconds left until a token expires into the lifetime to cache.
pub fn ttl_millis(remaining_secs: i64) -> (ttl: u64)
    ensures
        ttl == ttl_from_remaining(remaining_secs as int),
        ttl >= 1000,
{
    let secs: u64 = if remaining_secs < 1 {
        1
    } else {
        remaining_secs as u64
    };
    if secs > u64::MAX / 1000 {
        u64::MAX
    } else {
        secs * 1000
    }
}

} // verus!
