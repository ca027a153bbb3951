//! Global admission gate: one shared "last served" timestamp that spaces a
//! designated class of outbound calls to a minimum inter-request interval.
//!
//! Time is carried as milliseconds on the caller's monotonic clock. The
//! limiter itself only decides; the caller performs the actual suspension
//! for the returned delay.

use vstd::prelude::*;

verus! {

/// Milliseconds elapsed since a call was last admitted, clamped at zero
/// for a clock reading that is not past the recorded admission time.
pub open spec fn spec_elapsed_ms(last_served_ms: u64, now_ms: u64) -> int {
    if now_ms >= last_served_ms {
        now_ms - last_served_ms
    } else {
        0
    }
}

/// Delay imposed on a call arriving `spec_elapsed_ms` after the previous
/// admission: zero when throttling is disabled (`min_interval_ms == 0`) or the
/// interval has already passed, otherwise the remaining part of the interval.
pub open spec fn spec_delay_ms(last_served_ms: u64, now_ms: u64, min_interval_ms: u64) -> int {
    if min_interval_ms == 0 {
        0
    } else if spec_elapsed_ms(last_served_ms, now_ms) >= min_interval_ms {
        0
    } else {
        min_interval_ms - spec_elapsed_ms(last_served_ms, now_ms)
    }
}

/// State of the limiter: the moment, in caller-clock milliseconds, at which
/// the most recent call was admitted. Process-wide, one instance shared by
/// all callers under exclusive access.
#[derive(Clone, Debug, PartialEq, Eq)]
pub struct AdmissionGate {
    pub last_served_ms: u64,
}

impl AdmissionGate {
    /// A fresh gate whose recorded admission time lies `safety_margin_ms`
    /// before `now_ms` (clamped at zero), so that a first call arriving at or
    /// after `now_ms` is never throttled when the margin covers the interval.
    pub fn new(now_ms: u64, safety_margin_ms: u64) -> (gate: AdmissionGate)
        ensures
            gate.last_served_ms == (if now_ms >= safety_margin_ms {
                now_ms - safety_margin_ms
            } else {
                0
            }),
    {
        let last: u64 = if now_ms >= safety_margin_ms {
            now_ms - safety_margin_ms
        } else {
            0
        };
        AdmissionGate { last_served_ms: last }
    }

    /// Admit one call arriving at `now_ms` under a `min_interval_ms` spacing
    /// policy: returns how long the caller must still be suspended before
    /// proceeding, and records the admission time (`now_ms` plus that delay).
    pub fn admit_at(&mut self, now_ms: u64, min_interval_ms: u64) -> (delay_ms: u64)
        requires
            now_ms + min_interval_ms <= u64::MAX,
        ensures
            delay_ms == spec_delay_ms(old(self).last_served_ms, now_ms, min_interval_ms),
            final(self).last_served_ms == now_ms + delay_ms,
            min_interval_ms == 0 ==> delay_ms == 0,
            spec_elapsed_ms(old(self).last_served_ms, now_ms) >= min_interval_ms ==> delay_ms
                == 0,
    {
        let elapsed: u64 = if now_ms >= self.last_served_ms {
            now_ms - self.last_served_ms
        } else {
            0
        };
        let delay: u64 = if min_interval_ms == 0 {
            0
        } else if elapsed >= min_interval_ms {
            0
        } else {
            min_interval_ms - elapsed
        };
        self.last_served_ms = now_ms + delay;
        delay
    }
}

/// With throttling disabled no call is ever delayed, whatever the recorded
/// state and the call's arrival time.
pub proof fn lemma_zero_interval_never_delays(last_served_ms: u64, now_ms: u64)
    ensures
        spec_delay_ms(last_served_ms, now_ms, 0) == 0,
{
}

/// A call arriving before the minimum interval has elapsed is delayed by
/// exactly the remainder, so it proceeds no earlier than one full interval
/// after the previous admission.
pub proof fn lemma_spacing_lower_bound(last_served_ms: u64, now_ms: u64, min_interval_ms: u64)
    requires
        min_interval_ms > 0,
        now_ms >= last_served_ms,
    ensures
        now_ms + spec_delay_ms(last_served_ms, now_ms, min_interval_ms) >= last_served_ms
            + min_interval_ms,
{
}

} // verus!
