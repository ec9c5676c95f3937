//! Shared contract models for compatibility and admin flows.

pub mod dto;
pub mod errors;
pub mod events;
pub mod state;
pub mod versioning;

use vstd::prelude::*;

verus! {

pub const NAMESPACE: &'static str = "shared_contracts";

} // verus!
