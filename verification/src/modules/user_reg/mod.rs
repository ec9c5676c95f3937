//! Client registration and licensing: the core rules, the desktop adapters'
//! logic and the reference worker.

pub mod auth_licensing_core;
pub mod auth_licensing_tauri;
pub mod licensing_worker;

use vstd::prelude::*;

verus! {

pub const NAMESPACE: &'static str = "user_reg";

} // verus!
