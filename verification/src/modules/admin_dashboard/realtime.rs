//! Reconnection backoff and delta handling of the console's live feed.

use vstd::prelude::*;

verus! {

/// Seconds to wait before reconnection attempt `attempt`: 1, 2, 5, 10, then 30.
pub fn backoff_step_sec(attempt: u32) -> (r: u64)
    ensures
        r == (if attempt == 0 {
            1u64
        } else if attempt == 1 {
            2
        } else if attempt == 2 {
            5
        } else if attempt == 3 {
            10
        } else {
            30
        }),
{
    match attempt {
        0 => 1,
        1 => 2,
        2 => 5,
        3 => 10,
        _ => 30,
    }
}

/// Deltas apply only once a full resync has completed.
pub fn should_apply_delta(has_completed_resync: bool) -> (r: bool)
    ensures
        r == has_completed_resync,
{
    has_completed_resync
}

} // verus!
