//! Offline use within a grace window.

use vstd::prelude::*;

verus! {

#[derive(Debug, Clone, PartialEq, Eq)]
pub enum OfflineDecision {
    Allowed,
    Denied { reason: String },
}

/// Seconds since the last successful check, none if it lies in the future.
pub open spec fn offline_elapsed(last_success_epoch_sec: u64, now_epoch_sec: u64) -> int {
    if now_epoch_sec >= last_success_epoch_sec {
        now_epoch_sec - last_success_epoch_sec
    } else {
        0
    }
}

pub fn offline_access(last_success_epoch_sec: u64, now_epoch_sec: u64, grace_window_sec: u64) -> (r:
    OfflineDecision)
    ensures
        r is Allowed <==> offline_elapsed(last_success_epoch_sec, now_epoch_sec)
            <= grace_window_sec,
        r matches OfflineDecision::Denied { reason } ==> reason@ == "offline grace expired"@,
{
    if now_epoch_sec.saturating_sub(last_success_epoch_sec) <= grace_window_sec {
        OfflineDecision::Allowed
    } else {
        OfflineDecision::Denied { reason: String::from_str("offline grace expired") }
    }
}

} // verus!
