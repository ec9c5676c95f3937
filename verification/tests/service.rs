use license_control_suite::modules::user_reg::auth_licensing_core::service::build_reset_request;
use license_control_suite::modules::user_reg::auth_licensing_core::test_support::{
    FakeDeviceIdentityProvider, FakeWorkerClient, InMemoryLocalStateStore, InMemorySecretStore,
    TestService,
};
use license_control_suite::modules::user_reg::auth_licensing_core::{
    AccessToken, ActivationOutcome, AuthError, BoundDeviceSummary, DeviceFingerprint, DeviceId,
    DeviceIdentityProvider, DevicePublicKey, DeviceResetStatus, EntitlementStatus, LicenseKey,
    LocalStateStore, MaskedLicenseKey, PurchaseEmail, ResetRequestId, SecretStore, SessionState,
    ValidationOutcome,
};

fn outcome() -> ActivationOutcome {
    let public_key = DevicePublicKey::new("public").unwrap();
    ActivationOutcome {
        access_token: AccessToken::new("token").unwrap(),
        masked_license_key: MaskedLicenseKey::new("••••-1234").unwrap(),
        bound_device: BoundDeviceSummary {
            device_id: DeviceId::from_public_key(&public_key),
            public_key,
            fingerprint: DeviceFingerprint::new("linux", "linux", "x86_64", None).unwrap(),
        },
        entitlement: EntitlementStatus::Active,
        token_expires_at_ms: 200,
    }
}

#[test]
fn activation_sends_device_metadata_and_persists_success() {
    let worker = FakeWorkerClient::new().with_activation(Ok(outcome()));
    let mut service = TestService::new(worker).service;
    let result = service.activate_license(LicenseKey::new("LICENSE-1234").unwrap()).unwrap();

    let calls = service.worker().activation_requests();
    assert_eq!(calls.len(), 1);
    assert_eq!(calls[0].license_key.expose_secret(), "LICENSE-1234");
    assert_eq!(calls[0].device_public_key.as_str(), "public");
    assert_eq!(calls[0].app_version, "1.0.0");
    assert_eq!(calls[0].timestamp_ms, 10);
    assert_eq!(result.masked_license_key.as_str(), "••••-1234");
    assert_eq!(
        service.secrets().get_license_key().unwrap().unwrap().expose_secret(),
        "LICENSE-1234"
    );
    assert_eq!(service.secrets().get_access_token().unwrap().unwrap().expose_secret(), "token");
    assert!(matches!(service.get_auth_state().unwrap(), SessionState::Licensed { .. }));
}

#[test]
fn invalid_activation_persists_nothing() {
    let worker = FakeWorkerClient::new().with_activation(Err(AuthError::InvalidLicenseKey));
    let mut harness = TestService::new(worker);
    let err = harness.service.activate_license(LicenseKey::new("bad").unwrap()).err().unwrap();

    assert_eq!(err, AuthError::InvalidLicenseKey);
    assert!(harness.service.secrets().get_license_key().unwrap().is_none());
    assert!(harness.service.secrets().get_device_keypair().unwrap().is_none());
    assert_eq!(harness.service.state().load_session_state().unwrap(), SessionState::Unauthenticated);
}

#[test]
fn missing_token_moves_to_reauth_required() {
    let mut harness = TestService::new(FakeWorkerClient::new());
    let state = harness.service.validate_session().unwrap();
    assert_eq!(state, SessionState::ReauthRequired { masked_license_key: None });
}

#[test]
fn active_validation_preserves_licensed_state() {
    let worker = FakeWorkerClient::new().with_validation(Ok(ValidationOutcome::Active {
        masked_license_key: MaskedLicenseKey::new("••••-1234").unwrap(),
        bound_device: outcome().bound_device,
        token_expires_at_ms: 300,
    }));
    let mut harness = TestService::new(worker);
    harness.service.secrets_mut().put_access_token(AccessToken::new("token").unwrap()).unwrap();

    let state = harness.service.validate_session().unwrap();
    assert!(matches!(state, SessionState::Licensed { .. }));
}

#[test]
fn revoked_validation_clears_active_credential() {
    let worker = FakeWorkerClient::new().with_validation(Ok(ValidationOutcome::Revoked));
    let mut harness = TestService::new(worker);
    harness.service.secrets_mut().put_access_token(AccessToken::new("token").unwrap()).unwrap();

    let state = harness.service.validate_session().unwrap();
    assert!(matches!(state, SessionState::ReauthRequired { .. }));
    assert!(harness.service.secrets().get_access_token().unwrap().is_none());
}

#[test]
fn unreachable_worker_during_validation_changes_nothing() {
    let mut harness = TestService::new(FakeWorkerClient::new());
    harness.service.secrets_mut().put_access_token(AccessToken::new("token").unwrap()).unwrap();
    assert_eq!(harness.service.validate_session().unwrap_err(), AuthError::WorkerUnreachable);
    assert!(harness.service.secrets().get_access_token().unwrap().is_some());
    assert_eq!(harness.service.get_auth_state().unwrap(), SessionState::Unauthenticated);
}

#[test]
fn reset_request_sends_required_metadata_and_persists_pending() {
    let request_id = ResetRequestId::new("reset-1").unwrap();
    let status = DeviceResetStatus::Pending { request_id: request_id.clone(), created_at_ms: 10 };
    let worker = FakeWorkerClient::new().with_reset_request(Ok(status));
    let mut harness = TestService::new(worker);
    harness.service.secrets_mut().put_license_key(LicenseKey::new("LICENSE-1234").unwrap()).unwrap();

    harness
        .service
        .request_device_reset(PurchaseEmail::new("buyer@example.com").unwrap(), Some("receipt".into()))
        .unwrap();

    let calls = harness.service.worker().reset_requests();
    assert_eq!(calls.len(), 1);
    assert_eq!(calls[0].purchaser_email.as_str(), "buyer@example.com");
    assert_eq!(calls[0].receipt_reference.as_deref(), Some("receipt"));
    assert_eq!(calls[0].masked_license_key.as_ref().unwrap().as_str(), "••••-1234");
    assert_eq!(
        harness.service.state().load_reset_status().unwrap().unwrap().request_id(),
        &request_id
    );
    assert!(matches!(
        harness.service.get_auth_state().unwrap(),
        SessionState::ResetPending { .. }
    ));
}

#[test]
fn reset_request_without_any_license_is_invalid() {
    let mut harness = TestService::new(FakeWorkerClient::new());
    assert_eq!(
        harness
            .service
            .request_device_reset(PurchaseEmail::new("buyer@example.com").unwrap(), None)
            .unwrap_err(),
        AuthError::InvalidResetRequest
    );
    assert!(harness.service.worker().reset_requests().is_empty());
}

#[test]
fn approved_reset_clears_credentials_and_marks_unbound() {
    let request_id = ResetRequestId::new("reset-1").unwrap();
    let worker = FakeWorkerClient::new().with_reset_status(Ok(DeviceResetStatus::Approved {
        request_id: request_id.clone(),
        decided_at_ms: 10,
    }));
    let mut harness = TestService::new(worker);
    harness.service.secrets_mut().put_access_token(AccessToken::new("token").unwrap()).unwrap();

    harness.service.get_device_reset_status(request_id).unwrap();

    assert!(harness.service.secrets().get_access_token().unwrap().is_none());
    assert!(matches!(
        harness.service.state().load_session_state().unwrap(),
        SessionState::ResetApprovedUnbound { .. }
    ));
}

#[test]
fn not_found_reset_status_is_an_error_and_saves_nothing() {
    let request_id = ResetRequestId::new("reset-9").unwrap();
    let worker = FakeWorkerClient::new()
        .with_reset_status(Ok(DeviceResetStatus::NotFound { request_id: request_id.clone() }));
    let mut harness = TestService::new(worker);
    assert_eq!(
        harness.service.get_device_reset_status(request_id).unwrap_err(),
        AuthError::ResetRequestNotFound
    );
    assert!(harness.service.state().load_reset_status().unwrap().is_none());
}

#[test]
fn clear_local_session_forgets_secrets_but_keeps_keypair() {
    let worker = FakeWorkerClient::new().with_activation(Ok(outcome()));
    let mut harness = TestService::new(worker);
    harness.service.activate_license(LicenseKey::new("LICENSE-1234").unwrap()).unwrap();
    harness.service.clear_local_session().unwrap();
    assert!(harness.service.secrets().get_license_key().unwrap().is_none());
    assert!(harness.service.secrets().get_access_token().unwrap().is_none());
    assert!(harness.service.secrets().get_device_keypair().unwrap().is_some());
    assert_eq!(harness.service.get_auth_state().unwrap(), SessionState::Unauthenticated);
}

#[test]
fn in_memory_secret_store_persists_and_clears() {
    let mut store = InMemorySecretStore::default();
    store.put_license_key(LicenseKey::new("key").unwrap()).unwrap();
    store.put_access_token(AccessToken::new("token").unwrap()).unwrap();
    assert!(store.get_license_key().unwrap().is_some());
    store.clear_session_secrets().unwrap();
    assert!(store.get_license_key().unwrap().is_none());
    assert!(store.get_access_token().unwrap().is_none());
}

#[test]
fn local_state_defaults_to_unauthenticated() {
    let store = InMemoryLocalStateStore::default();
    assert_eq!(store.load_session_state().unwrap(), SessionState::Unauthenticated);
}

#[test]
fn fake_device_provider_returns_stable_identity() {
    let mut provider = FakeDeviceIdentityProvider::default();
    assert_eq!(provider.get_or_create_keypair().unwrap().public_key().as_str(), "public");
    assert_eq!(provider.collect_fingerprint().unwrap().platform, "linux");
}

#[test]
fn reset_request_needs_a_license_key_or_a_masked_key() {
    let fingerprint = || DeviceFingerprint::new("linux", "linux", "x86_64", None).unwrap();
    let email = || PurchaseEmail::new("buyer@example.com").unwrap();
    let public_key = || DevicePublicKey::new("public").unwrap();
    assert_eq!(
        build_reset_request(None, None, email(), public_key(), fingerprint(), "1.0.0".into(), 10, None)
            .err()
            .unwrap(),
        AuthError::InvalidResetRequest
    );
    let masked = MaskedLicenseKey::new("••••-1234").unwrap();
    let request = build_reset_request(
        None,
        Some(masked.clone()),
        email(),
        public_key(),
        fingerprint(),
        "1.0.0".into(),
        10,
        Some("receipt".into()),
    )
    .unwrap();
    assert_eq!(request.masked_license_key, Some(masked));
    assert_eq!(request.purchaser_email.as_str(), "buyer@example.com");
    assert_eq!(request.receipt_reference.as_deref(), Some("receipt"));
    assert_eq!(request.timestamp_ms, 10);
}
