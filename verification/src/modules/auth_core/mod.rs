//! Compatibility auth/licensing domain: activation, renewal, offline grace
//! and device-reset polling over the licensing API.

pub mod adapters;
pub mod auth;
pub mod models;
pub mod policy;
pub mod reset;
pub mod session;

use vstd::prelude::*;

verus! {

pub const NAMESPACE: &'static str = "auth_core";

} // verus!
