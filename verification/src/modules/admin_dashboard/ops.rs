//! Health of the admin console's view of the reset queue.

use vstd::prelude::*;

verus! {

#[derive(Debug, Clone, Copy)]
pub struct HealthInput {
    pub pending_count: u64,
    pub now_epoch_sec: u64,
    pub last_event_epoch_sec: u64,
    pub stale_threshold_sec: u64,
}

#[derive(Debug, Clone, Copy, PartialEq, Eq, Structural)]
pub struct HealthOutput {
    pub pending_count: u64,
    pub is_stale: bool,
}

/// The queue is stale when more than the threshold has passed since the last
/// event (no time has passed if the last event lies in the future).
pub fn compute_health(input: HealthInput) -> (r: HealthOutput)
    ensures
        r.pending_count == input.pending_count,
        r.is_stale == (if input.now_epoch_sec >= input.last_event_epoch_sec {
            input.now_epoch_sec - input.last_event_epoch_sec
        } else {
            0
        } > input.stale_threshold_sec),
{
    let elapsed = input.now_epoch_sec.saturating_sub(input.last_event_epoch_sec);
    HealthOutput {
        pending_count: input.pending_count,
        is_stale: elapsed > input.stale_threshold_sec,
    }
}

} // verus!
