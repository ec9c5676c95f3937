use license_control_suite::app_command_names;
use license_control_suite::modules::user_reg::auth_licensing_core::test_support::{
    FakeWorkerClient, TestService,
};
use license_control_suite::modules::user_reg::auth_licensing_core::{
    AccessToken, ActivationOutcome, AuthError, BoundDeviceSummary, DeviceFingerprint, DeviceId,
    DevicePublicKey, DeviceResetStatus, EntitlementStatus, MaskedLicenseKey, ResetRequestId,
    SessionState,
};
use license_control_suite::modules::user_reg::auth_licensing_tauri::{
    activate_license_with_service, command_names, get_auth_state_with_service,
    get_device_reset_status_with_service, request_device_reset_with_service, AuthCommandError,
    AuthStateView, DeviceResetInput,
};

fn outcome() -> ActivationOutcome {
    let public_key = DevicePublicKey::new("public").unwrap();
    ActivationOutcome {
        access_token: AccessToken::new("secret-token").unwrap(),
        masked_license_key: MaskedLicenseKey::new("••••-1234").unwrap(),
        bound_device: BoundDeviceSummary {
            device_id: DeviceId::from_public_key(&public_key),
            public_key,
            fingerprint: DeviceFingerprint::new("linux", "linux", "x86_64", None).unwrap(),
        },
        entitlement: EntitlementStatus::Active,
        token_expires_at_ms: 100,
    }
}

#[test]
fn activate_license_returns_frontend_safe_view() {
    let mut harness = TestService::new(FakeWorkerClient::new().with_activation(Ok(outcome())));
    let view = activate_license_with_service("LICENSE-1234", &mut harness.service).unwrap();
    let text = format!("{view:?}");
    assert!(text.contains("••••-1234"));
    assert!(!text.contains("LICENSE-1234"));
    assert!(!text.contains("secret-token"));
    assert_eq!(view.entitlement, "active");
}

#[test]
fn approved_reset_maps_to_unbound_frontend_state() {
    let request_id = ResetRequestId::new("reset-1").unwrap();
    let mut harness = TestService::new(FakeWorkerClient::new().with_reset_status(Ok(
        DeviceResetStatus::Approved { request_id, decided_at_ms: 10 },
    )));
    let view = get_device_reset_status_with_service("reset-1", &mut harness.service).unwrap();
    assert_eq!(view.status, "approved");
    assert!(matches!(view.auth_state, AuthStateView::ResetApprovedUnbound { .. }));
    assert_eq!(view.message.as_deref(), Some(DeviceResetStatus::approved_message()));
}

#[test]
fn command_errors_serialize_predictably() {
    let error = AuthCommandError::from_error(AuthError::WorkerUnreachable);
    let text = format!("{error:?}");
    assert!(text.contains("worker_unreachable"));
    assert_eq!(error.message, "worker is unreachable");
}

#[test]
fn every_launch_command_is_registered_by_name() {
    assert_eq!(
        command_names(),
        &[
            "activate_license",
            "validate_session",
            "request_device_reset",
            "get_device_reset_status",
            "clear_local_session",
            "get_auth_state"
        ]
    );
    assert_eq!(app_command_names(), command_names());
}

#[test]
fn blank_inputs_are_refused_before_the_service_runs() {
    let mut harness = TestService::new(FakeWorkerClient::new());
    assert_eq!(
        activate_license_with_service("   ", &mut harness.service).unwrap_err().code,
        "invalid_license_key"
    );
    assert_eq!(
        get_device_reset_status_with_service(" ", &mut harness.service).unwrap_err().code,
        "invalid_reset_request"
    );
    let input = DeviceResetInput { purchaser_email: "nobody".into(), receipt_reference: None };
    assert_eq!(
        request_device_reset_with_service(input, &mut harness.service).unwrap_err().code,
        "invalid_purchase_email"
    );
    assert!(harness.service.worker().activation_requests().is_empty());
}

#[test]
fn auth_state_view_shows_masked_key_and_device() {
    let state = SessionState::after_activation(
        outcome().masked_license_key,
        outcome().bound_device,
        100,
    );
    match AuthStateView::from_state(state) {
        AuthStateView::Licensed { masked_license_key, device_id, token_expires_at_ms } => {
            assert_eq!(masked_license_key, "••••-1234");
            assert_eq!(device_id, outcome().bound_device.device_id.as_str());
            assert_eq!(token_expires_at_ms, 100);
        }
        _ => panic!("expected a licensed view"),
    }
    let harness = TestService::new(FakeWorkerClient::new());
    assert_eq!(get_auth_state_with_service(&harness.service).unwrap(), AuthStateView::Unauthenticated);
}
