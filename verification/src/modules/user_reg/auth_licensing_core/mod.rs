//! Client auth and licensing business rules, with no desktop dependency:
//! desktop IPC, keychain, filesystem and HTTP adapters live outside it.

pub mod domain;
pub mod service;
pub mod state;
pub mod test_support;
pub mod traits;

pub use domain::{
    AccessToken, ActivationOutcome, ActivationRequest, AdminResetDecision, AuthError,
    BoundDeviceSummary, DeviceFingerprint, DeviceId, DeviceKeyPair, DevicePublicKey,
    DeviceResetRequest, EntitlementStatus, LicenseKey, MaskedLicenseKey, PurchaseEmail,
    ResetRequestId, ValidationOutcome,
};
pub use service::{masked_from_state, AuthService};
pub use state::{DeviceResetStatus, SessionState};
pub use traits::{
    Clock, DeviceIdentityProvider, LocalStateStore, LocalStateView, SecretStore, SecretsView,
    WorkerClient, WorkerRequests,
};
