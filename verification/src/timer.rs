//! The injection timer: a single "last injection timestamp", mutated only by
//! the control loop, that gates the randomized bursts to a fixed wall-clock
//! interval.

use crate::INJECT_INTERVAL_MS;
use vstd::prelude::*;

verus! {

/// Holds the wall-clock time, in milliseconds, of the most recent injection
/// (or of the loop's start, before the first injection fires).
pub struct InjectTimer {
    pub last_ms: u64,
}

impl InjectTimer {
    /// A fresh timer, as if an injection had just fired at `start_ms`.
    pub fn new(start_ms: u64) -> (t: InjectTimer)
        ensures
            t.last_ms == start_ms,
    {
        InjectTimer { last_ms: start_ms }
    }

    /// An injection fires exactly when more than the configured interval has
    /// elapsed since the last one.
    pub open spec fn fires(self, now_ms: u64) -> bool {
        now_ms - self.last_ms > INJECT_INTERVAL_MS
    }

    /// Decides whether an injection fires now; when it does, the timer is
    /// reset to `now_ms`, otherwise it is left unchanged.
    pub fn check(&mut self, now_ms: u64) -> (fired: bool)
        requires
            now_ms >= old(self).last_ms,
        ensures
            fired == old(self).fires(now_ms),
            fired ==> final(self).last_ms == now_ms,
            !fired ==> final(self).last_ms == old(self).last_ms,
    {
        if now_ms - self.last_ms > INJECT_INTERVAL_MS {
            self.last_ms = now_ms;
            true
        } else {
            false
        }
    }
}

/// Cadence law: when the timer fires at `now1` and, having been reset there,
/// fires again at `now2`, the two firings are more than the configured
/// interval apart.
pub proof fn lemma_injection_cadence(t: InjectTimer, now1: u64, now2: u64)
    requires
        t.fires(now1),
        (InjectTimer { last_ms: now1 }).fires(now2),
    ensures
        now2 - now1 > INJECT_INTERVAL_MS,
{
}

} // verus!
