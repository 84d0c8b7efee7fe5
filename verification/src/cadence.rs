//! The minimum time between freezes, on a monotonic clock counted in milliseconds.
use vstd::prelude::*;

verus! {

/// Minimum time between freezes: a new freeze may start once `lock_interval_ms` milliseconds
/// have passed on the monotonic clock since the last unlock.
#[derive(Debug, Clone, Copy, PartialEq, Eq, Structural)]
pub struct GateCadence {
    pub lock_interval_ms: u64,
}

/// The time from `earlier` to `later`, or zero when `later` is not after it.
pub open spec fn elapsed_ms(earlier: u64, later: u64) -> int {
    if later >= earlier {
        later - earlier
    } else {
        0
    }
}

/// Whether the cadence lets a freeze start at `now`.
pub open spec fn cadence_allows(interval_ms: u64, last_unlock: Option<u64>, now: u64) -> bool {
    match last_unlock {
        None => true,
        Some(t) => elapsed_ms(t, now) >= interval_ms,
    }
}

impl GateCadence {
    pub fn new(lock_interval_ms: u64) -> (r: GateCadence)
        ensures
            r.lock_interval_ms == lock_interval_ms,
    {
        GateCadence { lock_interval_ms }
    }

    /// Whether a new lock may start at `now` given the last unlock instant (always, when there
    /// was none).
    pub fn allows_lock_at(&self, last_unlock: Option<u64>, now: u64) -> (r: bool)
        ensures
            r == cadence_allows(self.lock_interval_ms, last_unlock, now),
    {
        match last_unlock {
            None => true,
            Some(t) => {
                let elapsed = if now >= t {
                    now - t
                } else {
                    0
                };
                elapsed >= self.lock_interval_ms
            },
        }
    }
}

/// Once the cadence allows a freeze, it keeps allowing it as time goes on.
pub proof fn law_cadence_allows_monotone(
    cadence: GateCadence,
    last_unlock: Option<u64>,
    now: u64,
    later: u64,
)
    requires
        cadence_allows(cadence.lock_interval_ms, last_unlock, now),
        now <= later,
    ensures
        cadence_allows(cadence.lock_interval_ms, last_unlock, later),
{
}

/// A gate that never unlocked, or one with a zero interval, may always lock.
pub proof fn law_cadence_zero_interval(last_unlock: Option<u64>, now: u64)
    ensures
        cadence_allows(0, last_unlock, now),
{
}

} // verus!
