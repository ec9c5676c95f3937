//! Lifecycle states of licenses and reset requests on the wire.

use vstd::prelude::*;

verus! {

#[derive(Debug, Clone, Copy, PartialEq, Eq, Structural)]
pub enum LicenseState {
    Unbound,
    Active,
    ResetPending,
    Suspended,
    Revoked,
}

#[derive(Debug, Clone, Copy, PartialEq, Eq, Structural)]
pub enum ResetRequestState {
    Pending,
    UnderReview,
    Approved,
    Rejected,
    Expired,
}

} // verus!
