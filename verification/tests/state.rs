use license_control_suite::modules::user_reg::auth_licensing_core::{
    AuthError, BoundDeviceSummary, DeviceFingerprint, DeviceId, DevicePublicKey,
    DeviceResetStatus, MaskedLicenseKey, ResetRequestId, SessionState,
};

fn masked() -> MaskedLicenseKey {
    MaskedLicenseKey::new("••••-1234").unwrap()
}

fn bound_device() -> BoundDeviceSummary {
    let public_key = DevicePublicKey::new("public").unwrap();
    BoundDeviceSummary {
        device_id: DeviceId::from_public_key(&public_key),
        public_key,
        fingerprint: DeviceFingerprint::new("linux", "linux", "x86_64", None).unwrap(),
    }
}

#[test]
fn default_state_is_unauthenticated() {
    assert_eq!(SessionState::default(), SessionState::Unauthenticated);
}

#[test]
fn activation_moves_to_licensed() {
    let state = SessionState::after_activation(masked(), bound_device(), 100);
    assert!(matches!(state, SessionState::Licensed { .. }));
}

#[test]
fn missing_or_expired_token_requires_reauth() {
    let state = SessionState::require_reauth(Some(masked()));
    assert!(matches!(state, SessionState::ReauthRequired { .. }));
}

#[test]
fn reset_approval_is_unbound_not_current_device_activation() {
    let request_id = ResetRequestId::new("reset-1").unwrap();
    let status = DeviceResetStatus::Approved { request_id: request_id.clone(), decided_at_ms: 10 };
    let state = SessionState::after_reset_status(&status, Some(masked())).unwrap();
    assert_eq!(
        state,
        SessionState::ResetApprovedUnbound { request_id, masked_license_key: Some(masked()) }
    );
    assert!(!DeviceResetStatus::approved_message().contains("this device is activated"));
}

#[test]
fn rejected_reset_does_not_mark_unbound() {
    let request_id = ResetRequestId::new("reset-1").unwrap();
    let status = DeviceResetStatus::Rejected { request_id, decided_at_ms: 10, reason: None };
    let state = SessionState::after_reset_status(&status, Some(masked())).unwrap();
    assert!(matches!(state, SessionState::ResetRejected { .. }));
}

#[test]
fn not_found_status_is_recoverable_error() {
    let request_id = ResetRequestId::new("reset-1").unwrap();
    let status = DeviceResetStatus::NotFound { request_id };
    assert_eq!(
        SessionState::after_reset_status(&status, None).unwrap_err(),
        AuthError::ResetRequestNotFound
    );
}

#[test]
fn pending_and_expired_statuses_keep_the_masked_key() {
    let id = ResetRequestId::new("reset-2").unwrap();
    let pending = DeviceResetStatus::Pending { request_id: id.clone(), created_at_ms: 5 };
    assert_eq!(
        SessionState::after_reset_status(&pending, Some(masked())).unwrap(),
        SessionState::ResetPending { request_id: id.clone(), masked_license_key: Some(masked()) }
    );
    let expired = DeviceResetStatus::Expired { request_id: id.clone(), expired_at_ms: 7 };
    assert_eq!(
        SessionState::after_reset_status(&expired, None).unwrap(),
        SessionState::ResetExpired { request_id: id.clone(), masked_license_key: None }
    );
    assert_eq!(expired.request_id(), &id);
}
