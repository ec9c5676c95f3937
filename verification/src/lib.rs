//! License control suite: client activation and device binding, device
//! resets decided by an admin, the admin console's rules, and a reference
//! licensing worker, with their behaviour stated and proved.

pub mod client_core;
pub mod cloning;
pub mod desktop;
pub mod digest;
pub mod modules;
pub mod reference_worker;
pub mod text;

use modules::user_reg::auth_licensing_tauri::commands::command_names;
use vstd::prelude::*;

verus! {

/// The command names an application registers: the six client commands.
pub fn app_command_names() -> (r: Vec<&'static str>)
    ensures
        r@.len() == 6,
        r@[0]@ == "activate_license"@,
        r@[1]@ == "validate_session"@,
        r@[2]@ == "request_device_reset"@,
        r@[3]@ == "get_device_reset_status"@,
        r@[4]@ == "clear_local_session"@,
        r@[5]@ == "get_auth_state"@,
{
    command_names()
}

} // verus!
