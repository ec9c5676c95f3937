//! Desktop command surface.

pub use crate::modules::user_reg::auth_licensing_tauri::{
    activate_license_with_service, clear_local_session_with_service, command_names,
    get_auth_state_with_service, get_device_reset_status_with_service,
    request_device_reset_with_service, validate_session_with_service, ActivationView,
    AuthAppState, AuthCommandError, AuthStateView, DeviceResetInput, DeviceResetView,
    SessionView,
};
