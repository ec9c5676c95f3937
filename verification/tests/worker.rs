use license_control_suite::modules::user_reg::auth_licensing_core::{
    ActivationRequest, AdminResetDecision, AuthError, DeviceFingerprint, DevicePublicKey,
    DeviceResetRequest, DeviceResetStatus, LicenseKey, PurchaseEmail, ResetRequestId,
    ValidationOutcome,
};
use license_control_suite::modules::user_reg::licensing_worker::{InMemoryWorkerStore, WorkerApp};

fn license() -> LicenseKey {
    LicenseKey::new("LICENSE-1234").unwrap()
}

fn activation_request(public_key: &str) -> ActivationRequest {
    ActivationRequest {
        license_key: license(),
        device_public_key: DevicePublicKey::new(public_key).unwrap(),
        fingerprint: DeviceFingerprint::new("linux", "linux", "x86_64", None).unwrap(),
        app_version: "1.0.0".into(),
        timestamp_ms: 10,
    }
}

fn reset_request() -> DeviceResetRequest {
    DeviceResetRequest {
        license_key: Some(license()),
        masked_license_key: None,
        purchaser_email: PurchaseEmail::new("buyer@example.com").unwrap(),
        device_public_key: DevicePublicKey::new("public").unwrap(),
        fingerprint: DeviceFingerprint::new("linux", "linux", "x86_64", None).unwrap(),
        app_version: "1.0.0".into(),
        timestamp_ms: 20,
        receipt_reference: Some("receipt".into()),
    }
}

fn app() -> WorkerApp {
    let mut store = InMemoryWorkerStore::default();
    store.insert_license(&license(), "buyer@example.com");
    WorkerApp::new(store, "admin-secret")
}

#[test]
fn storage_creates_and_reads_license_record() {
    let mut store = InMemoryWorkerStore::default();
    store.insert_license(&license(), "buyer@example.com");
    assert_eq!(store.license(&license()).unwrap().purchaser.email, "buyer@example.com");
}

#[test]
fn valid_unbound_activation_binds_device() {
    let mut app = app();
    let outcome = app.activate(activation_request("public")).unwrap();
    assert_eq!(outcome.masked_license_key.as_str(), "••••-1234");
    assert_eq!(
        app.store()
            .license(&license())
            .unwrap()
            .current_binding
            .unwrap()
            .public_key
            .as_str(),
        "public"
    );
}

#[test]
fn same_device_reactivation_refreshes_token() {
    let mut app = app();
    app.activate(activation_request("public")).unwrap();
    let second = app.activate(activation_request("public")).unwrap();
    assert_eq!(second.bound_device.public_key.as_str(), "public");
}

#[test]
fn different_device_activation_fails_while_bound() {
    let mut app = app();
    app.activate(activation_request("public")).unwrap();
    assert_eq!(
        app.activate(activation_request("other-public")).err().unwrap(),
        AuthError::DeviceAlreadyBound
    );
}

#[test]
fn validation_succeeds_for_active_token_and_fails_after_reset_approval() {
    let mut app = app();
    let outcome = app.activate(activation_request("public")).unwrap();
    assert!(matches!(
        app.validate_session(outcome.access_token.clone()).unwrap(),
        ValidationOutcome::Active { .. }
    ));
    let status = app.request_device_reset(reset_request()).unwrap();
    let request_id = status.request_id().clone();
    app.decide_reset("admin-secret", request_id, AdminResetDecision::Approve, 30).unwrap();
    assert!(matches!(
        app.validate_session(outcome.access_token).unwrap(),
        ValidationOutcome::ReauthRequired
    ));
}

#[test]
fn reset_request_creates_pending_record_with_metadata() {
    let mut app = app();
    let status = app.request_device_reset(reset_request()).unwrap();
    assert!(matches!(status, DeviceResetStatus::Pending { .. }));
    let stored = app.store().reset_request(status.request_id()).unwrap();
    assert_eq!(stored.purchaser_email, "buyer@example.com");
    assert_eq!(stored.receipt_reference.as_deref(), Some("receipt"));
}

#[test]
fn reset_status_returns_not_found_for_missing_request() {
    let app = app();
    assert!(matches!(
        app.get_reset_status(ResetRequestId::new("missing").unwrap()),
        DeviceResetStatus::NotFound { .. }
    ));
}

#[test]
fn admin_approval_unbinds_license_and_revokes_token() {
    let mut app = app();
    let outcome = app.activate(activation_request("public")).unwrap();
    let status = app.request_device_reset(reset_request()).unwrap();
    app.decide_reset("admin-secret", status.request_id().clone(), AdminResetDecision::Approve, 30)
        .unwrap();
    assert!(app.store().license(&license()).unwrap().current_binding.is_none());
    assert!(matches!(
        app.validate_session(outcome.access_token).unwrap(),
        ValidationOutcome::ReauthRequired
    ));
}

#[test]
fn admin_rejection_preserves_binding() {
    let mut app = app();
    app.activate(activation_request("public")).unwrap();
    let status = app.request_device_reset(reset_request()).unwrap();
    app.decide_reset("admin-secret", status.request_id().clone(), AdminResetDecision::Reject, 30)
        .unwrap();
    assert!(app.store().license(&license()).unwrap().current_binding.is_some());
}

#[test]
fn admin_routes_require_authorization() {
    let mut app = app();
    let status = app.request_device_reset(reset_request()).unwrap();
    assert_eq!(
        app.decide_reset("wrong", status.request_id().clone(), AdminResetDecision::Approve, 30)
            .unwrap_err(),
        AuthError::Unauthorized
    );
}

#[test]
fn audit_events_are_written() {
    let mut app = app();
    app.activate(activation_request("public")).unwrap();
    let status = app.request_device_reset(reset_request()).unwrap();
    app.decide_reset("admin-secret", status.request_id().clone(), AdminResetDecision::Reject, 30)
        .unwrap();
    let kinds = app
        .store()
        .audit_events()
        .into_iter()
        .map(|event| event.kind)
        .collect::<Vec<_>>();
    assert!(kinds.contains(&"activation_success".to_string()));
    assert!(kinds.contains(&"reset_request_created".to_string()));
    assert!(kinds.contains(&"reset_rejected".to_string()));
}

#[test]
fn worker_errors_do_not_echo_raw_secrets() {
    let error = app().activate(activation_request("other")).unwrap().access_token;
    assert!(!error.debug_string().contains("tok_"));
}

#[test]
fn audit_events_do_not_store_raw_access_tokens() {
    let mut app = app();
    let token = app.activate(activation_request("public")).unwrap().access_token;
    let audit_text = format!("{:?}", app.store().audit_events());
    assert!(!audit_text.contains(token.expose_secret()));
}

#[test]
fn unknown_and_inactive_licenses_are_refused_without_change() {
    let mut store = InMemoryWorkerStore::default();
    store.insert_license(&LicenseKey::new("OTHER").unwrap(), "x@y.z");
    let mut app = WorkerApp::new(store, "admin-secret");
    assert_eq!(
        app.activate(activation_request("public")).err().unwrap(),
        AuthError::InvalidLicenseKey
    );
    assert!(app.store().audit_events().is_empty());
}

#[test]
fn refused_second_device_is_audited_and_keeps_first_binding() {
    let mut app = app();
    app.activate(activation_request("public")).unwrap();
    assert!(app.activate(activation_request("other-public")).is_err());
    let events = app.store().audit_events();
    assert_eq!(events.last().unwrap().kind, "activation_device_bound_failure");
    assert_eq!(
        app.store().license(&license()).unwrap().current_binding.unwrap().public_key.as_str(),
        "public"
    );
}

#[test]
fn issued_token_has_token_prefix_and_validates_with_binding() {
    let mut app = app();
    let outcome = app.activate(activation_request("public")).unwrap();
    assert!(outcome.access_token.expose_secret().starts_with("tok_"));
    assert_eq!(outcome.token_expires_at_ms, 10 + 3_600_000);
    match app.validate_session(outcome.access_token).unwrap() {
        ValidationOutcome::Active { masked_license_key, bound_device, token_expires_at_ms } => {
            assert_eq!(masked_license_key.as_str(), "••••-1234");
            assert_eq!(bound_device.public_key.as_str(), "public");
            assert_eq!(token_expires_at_ms, 3_600_000);
        }
        _ => panic!("expected an active session"),
    }
}

#[test]
fn unknown_token_is_reauth_and_audited() {
    let mut app = app();
    let token =
        license_control_suite::modules::user_reg::auth_licensing_core::AccessToken::new("nope")
            .unwrap();
    assert!(matches!(app.validate_session(token).unwrap(), ValidationOutcome::ReauthRequired));
    assert_eq!(app.store().audit_events().last().unwrap().kind, "validation_failure");
}

#[test]
fn reset_ids_are_derived_and_decisions_recorded() {
    let mut app = app();
    let status = app.request_device_reset(reset_request()).unwrap();
    let id = status.request_id().clone();
    assert!(id.as_str().starts_with("reset_"));
    assert_eq!(id.as_str().len(), "reset_".len() + 16);
    let decided = app
        .decide_reset("admin-secret", id.clone(), AdminResetDecision::Approve, 30)
        .unwrap();
    assert_eq!(decided, DeviceResetStatus::Approved { request_id: id.clone(), decided_at_ms: 30 });
    assert_eq!(app.get_reset_status(id.clone()), decided);
    assert_eq!(
        app.decide_reset("admin-secret", ResetRequestId::new("missing").unwrap(), AdminResetDecision::Reject, 31)
            .unwrap_err(),
        AuthError::ResetRequestNotFound
    );
}

#[test]
fn license_records_are_keyed_by_the_unpadded_base64_sha256_of_the_key() {
    let mut store = InMemoryWorkerStore::default();
    store.insert_license(&license(), "buyer@example.com");
    assert_eq!(
        store.license(&license()).unwrap().license_key_hash,
        "8xjFu+gdVWGfXYZDezi3+LlBsuYytWSmiwyH31gibU4"
    );
}
