use license_control_suite::modules::user_reg::auth_licensing_core::{
    AccessToken, ActivationRequest, AuthError, DeviceFingerprint, DeviceId, DevicePublicKey,
    DeviceResetRequest, DeviceResetStatus, EntitlementStatus, LicenseKey, PurchaseEmail,
    ResetRequestId, ValidationOutcome,
};
use license_control_suite::modules::user_reg::auth_licensing_tauri::http_client::{
    failed_response_error, status_error, ActivationRequestBody, ActivationResponseBody,
    BoundDeviceBody, DeviceResetRequestBody, DeviceResetStatusBody, EntitlementStatusBody,
    ValidationRequestBody, ValidationResponseBody, WorkerEndpoints, WorkerErrorBody,
};

fn activation_request() -> ActivationRequest {
    ActivationRequest {
        license_key: LicenseKey::new("SECRET-LICENSE").unwrap(),
        device_public_key: DevicePublicKey::new("public").unwrap(),
        fingerprint: DeviceFingerprint::new("linux", "linux", "x86_64", None).unwrap(),
        app_version: "1.0.0".into(),
        timestamp_ms: 10,
    }
}

#[test]
fn debug_output_does_not_contain_request_secrets() {
    let request = ActivationRequestBody::from_request(activation_request());
    let validation = ValidationRequestBody::from_token(AccessToken::new("SECRET-TOKEN").unwrap());
    assert!(!request.debug_string().contains("SECRET-LICENSE"));
    assert!(!validation.debug_string().contains("SECRET-TOKEN"));
}

#[test]
fn activation_body_debug_matches_field_by_field_form() {
    let request = ActivationRequestBody::from_request(activation_request());
    assert_eq!(request.license_key, "SECRET-LICENSE");
    assert_eq!(
        request.debug_string(),
        "ActivationRequestBody { license_key: \"<redacted>\", device_public_key: \"public\", \
         fingerprint: DeviceFingerprint { platform: \"linux\", os: \"linux\", arch: \"x86_64\", \
         hostname_hash: None }, app_version: \"1.0.0\", timestamp_ms: 10 }"
    );
}

#[test]
fn reset_body_redacts_license_key() {
    let request = DeviceResetRequest {
        license_key: Some(LicenseKey::new("SECRET-LICENSE").unwrap()),
        masked_license_key: None,
        purchaser_email: PurchaseEmail::new("buyer@example.com").unwrap(),
        device_public_key: DevicePublicKey::new("public").unwrap(),
        fingerprint: DeviceFingerprint::new("linux", "linux", "x86_64", None).unwrap(),
        app_version: "1.0.0".into(),
        timestamp_ms: 10,
        receipt_reference: None,
    };
    let body = DeviceResetRequestBody::from_request(request);
    assert_eq!(body.license_key.as_deref(), Some("SECRET-LICENSE"));
    let text = body.debug_string();
    assert!(!text.contains("SECRET-LICENSE"));
    assert!(text.contains("license_key: Some(\"<redacted>\")"));
    assert!(text.contains("purchaser_email: \"buyer@example.com\""));
}

#[test]
fn activation_error_body_maps_without_echoing_worker_message() {
    let body = WorkerErrorBody { code: Some("invalid_license_key".into()) };
    let error = failed_response_error(400, Some(body));
    assert_eq!(error, AuthError::InvalidLicenseKey);
    assert!(!error.to_string().contains("SECRET-LICENSE"));
}

#[test]
fn activation_conflict_maps_to_device_bound() {
    assert_eq!(failed_response_error(409, None), AuthError::DeviceAlreadyBound);
}

#[test]
fn validation_gone_maps_to_reauth_required() {
    assert_eq!(failed_response_error(410, None), AuthError::ReauthRequired);
}

#[test]
fn status_and_code_mapping() {
    assert_eq!(status_error(400), AuthError::InvalidResetRequest);
    assert_eq!(status_error(401), AuthError::Unauthorized);
    assert_eq!(status_error(403), AuthError::Unauthorized);
    assert_eq!(status_error(404), AuthError::ResetRequestNotFound);
    assert_eq!(status_error(500), AuthError::WorkerUnreachable);
    let unknown = WorkerErrorBody { code: Some("mystery".into()) };
    assert_eq!(unknown.into_auth_error(404), AuthError::ResetRequestNotFound);
    let expired = WorkerErrorBody { code: Some("token_expired".into()) };
    assert_eq!(expired.into_auth_error(500), AuthError::ReauthRequired);
    assert_eq!(WorkerErrorBody { code: None }.into_auth_error(409), AuthError::DeviceAlreadyBound);
}

fn bound_body() -> BoundDeviceBody {
    BoundDeviceBody {
        device_id: "device-1".into(),
        public_key: "public".into(),
        fingerprint: DeviceFingerprint::new("linux", "linux", "x86_64", None).unwrap(),
    }
}

#[test]
fn activation_response_converts_and_validates() {
    let body = ActivationResponseBody {
        access_token: "SECRET-TOKEN".into(),
        masked_license_key: "••••-ENSE".into(),
        bound_device: bound_body(),
        entitlement: EntitlementStatusBody::Active,
        token_expires_at_ms: 100,
    };
    let outcome = body.clone().into_outcome().unwrap();
    assert_eq!(outcome.masked_license_key.as_str(), "••••-ENSE");
    assert_eq!(outcome.entitlement, EntitlementStatus::Active);
    assert_eq!(outcome.bound_device.device_id.as_str(), "device-1");
    let bad = ActivationResponseBody { access_token: " ".into(), ..body.clone() };
    assert_eq!(bad.into_outcome().err().unwrap(), AuthError::ReauthRequired);
    let bad = ActivationResponseBody {
        bound_device: BoundDeviceBody { public_key: "".into(), ..bound_body() },
        ..body
    };
    assert_eq!(bad.into_outcome().err().unwrap(), AuthError::InvalidDeviceIdentity);
}

#[test]
fn validation_and_status_responses_convert() {
    assert_eq!(ValidationResponseBody::Revoked.into_validation().unwrap(), ValidationOutcome::Revoked);
    let active = ValidationResponseBody::Active {
        masked_license_key: "".into(),
        bound_device: bound_body(),
        token_expires_at_ms: 1,
    };
    assert_eq!(active.into_validation().unwrap_err(), AuthError::InvalidLicenseKey);
    let pending = DeviceResetStatusBody::Pending { request_id: "reset-1".into(), created_at_ms: 10 };
    assert!(matches!(pending.into_status().unwrap(), DeviceResetStatus::Pending { created_at_ms: 10, .. }));
}

#[test]
fn reset_status_get_parses_approved() {
    let approved = DeviceResetStatusBody::Approved { request_id: "reset-1".into(), decided_at_ms: 10 };
    assert!(matches!(approved.into_status().unwrap(), DeviceResetStatus::Approved { .. }));
    let blank = DeviceResetStatusBody::NotFound { request_id: "  ".into() };
    assert_eq!(blank.into_status().unwrap_err(), AuthError::InvalidResetRequest);
}

#[test]
fn worker_endpoints_drop_trailing_slashes_from_the_base_url() {
    let endpoints = WorkerEndpoints::new("https://worker.example//");
    assert_eq!(endpoints.base_url(), "https://worker.example");
    assert_eq!(endpoints.activate_url(), "https://worker.example/v1/activate");
    assert_eq!(endpoints.validate_url(), "https://worker.example/v1/session/validate");
    assert_eq!(endpoints.reset_request_url(), "https://worker.example/v1/device-reset/request");
    let id = ResetRequestId::new("reset-1").unwrap();
    assert_eq!(
        endpoints.reset_status_url(&id),
        "https://worker.example/v1/device-reset/status/reset-1"
    );
    assert_eq!(WorkerEndpoints::new("").base_url(), "");
    assert_eq!(WorkerEndpoints::new("///").base_url(), "");
}

#[test]
fn activation_uses_expected_method_path_and_parses_success() {
    let endpoints = WorkerEndpoints::new("http://127.0.0.1:4010");
    assert_eq!(endpoints.activate_url(), "http://127.0.0.1:4010/v1/activate");
    let body = ActivationRequestBody::from_request(activation_request());
    assert_eq!(body.license_key, "SECRET-LICENSE");
    assert_eq!(body.device_public_key, "public");
    assert_eq!(body.fingerprint, DeviceFingerprint::new("linux", "linux", "x86_64", None).unwrap());
    assert_eq!(body.app_version, "1.0.0");
    assert_eq!(body.timestamp_ms, 10);
    let public_key = DevicePublicKey::new("public").unwrap();
    let device_id = DeviceId::from_public_key(&public_key);
    let response = ActivationResponseBody {
        access_token: "SECRET-TOKEN".into(),
        masked_license_key: "••••-ENSE".into(),
        bound_device: BoundDeviceBody {
            device_id: device_id.as_str().to_string(),
            public_key: "public".into(),
            fingerprint: DeviceFingerprint::new("linux", "linux", "x86_64", None).unwrap(),
        },
        entitlement: EntitlementStatusBody::Active,
        token_expires_at_ms: 100,
    };
    let result = response.into_outcome().unwrap();
    assert_eq!(result.masked_license_key.as_str(), "••••-ENSE");
}

#[test]
fn reset_request_uses_expected_path_and_parses_pending() {
    let endpoints = WorkerEndpoints::new("http://127.0.0.1:4010");
    assert_eq!(endpoints.reset_request_url(), "http://127.0.0.1:4010/v1/device-reset/request");
    let request_id = ResetRequestId::new("reset-1").unwrap();
    let request = DeviceResetRequest {
        license_key: Some(LicenseKey::new("SECRET-LICENSE").unwrap()),
        masked_license_key: None,
        purchaser_email: PurchaseEmail::new("buyer@example.com").unwrap(),
        device_public_key: DevicePublicKey::new("public").unwrap(),
        fingerprint: DeviceFingerprint::new("linux", "linux", "x86_64", None).unwrap(),
        app_version: "1.0.0".into(),
        timestamp_ms: 10,
        receipt_reference: None,
    };
    let body = DeviceResetRequestBody::from_request(request);
    assert_eq!(body.license_key.as_deref(), Some("SECRET-LICENSE"));
    assert_eq!(body.masked_license_key, None);
    assert_eq!(body.purchaser_email, "buyer@example.com");
    assert_eq!(body.device_public_key, "public");
    assert_eq!(body.app_version, "1.0.0");
    assert_eq!(body.timestamp_ms, 10);
    assert_eq!(body.receipt_reference, None);
    let response = DeviceResetStatusBody::Pending { request_id: "reset-1".into(), created_at_ms: 10 };
    assert_eq!(response.into_status().unwrap().request_id(), &request_id);
}

#[test]
fn debug_text_writes_negative_and_extreme_timestamps_in_decimal() {
    let mut body = ActivationRequestBody::from_request(activation_request());
    body.timestamp_ms = -5;
    assert!(body.debug_string().ends_with("timestamp_ms: -5 }"));
    body.timestamp_ms = i64::MIN;
    assert!(body.debug_string().ends_with("timestamp_ms: -9223372036854775808 }"));
    body.timestamp_ms = 0;
    assert!(body.debug_string().ends_with("timestamp_ms: 0 }"));
}
