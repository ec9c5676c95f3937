//! Desktop admin domain: operator login, scope checks, the reset queue and
//! console health.

pub mod adapters;
pub mod auth;
pub mod authz;
pub mod compatibility;
pub mod ops;
pub mod queue;
pub mod realtime;

use vstd::prelude::*;

verus! {

pub const NAMESPACE: &'static str = "admin_dashboard";

} // verus!
