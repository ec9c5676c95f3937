//! Desktop integration for auth and licensing: command views, worker wire
//! formats and store naming. Business rules live in `auth_licensing_core`.

pub mod commands;
pub mod http_client;
pub mod persistence;

pub use commands::{
    activate_license_with_service, clear_local_session_with_service, command_names,
    get_auth_state_with_service, get_device_reset_status_with_service,
    request_device_reset_with_service, validate_session_with_service, ActivationView,
    AuthAppState, AuthCommandError, AuthStateView, DeviceResetInput, DeviceResetView,
    SessionView,
};
pub use persistence::{AppDataStateStore, InMemorySecretStore, KeychainSecretStore};
