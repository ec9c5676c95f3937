//! Crate-level client auth/licensing API: the trait-oriented licensing core.

pub use crate::modules::user_reg::auth_licensing_core::{
    domain, masked_from_state, service, state, test_support, traits, AccessToken,
    ActivationOutcome, ActivationRequest, AdminResetDecision, AuthError, AuthService,
    BoundDeviceSummary, Clock, DeviceFingerprint, DeviceId, DeviceIdentityProvider,
    DeviceKeyPair, DevicePublicKey, DeviceResetRequest, DeviceResetStatus, EntitlementStatus,
    LicenseKey, LocalStateStore, MaskedLicenseKey, PurchaseEmail, ResetRequestId, SecretStore,
    SessionState, ValidationOutcome, WorkerClient,
};
