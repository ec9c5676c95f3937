use license_control_suite::modules::user_reg::auth_licensing_core::{
    AccessToken, AuthError, DeviceFingerprint, DeviceId, DeviceKeyPair, DevicePublicKey,
    LicenseKey, MaskedLicenseKey, PurchaseEmail, ResetRequestId,
};

#[test]
fn license_key_normalizes_and_masks() {
    let key = LicenseKey::new("  ABCD-1234  ").unwrap();
    assert_eq!(key.expose_secret(), "ABCD-1234");
    assert_eq!(key.masked().as_str(), "••••-1234");
}

#[test]
fn license_key_rejects_empty_values() {
    assert_eq!(LicenseKey::new("   ").err().unwrap(), AuthError::InvalidLicenseKey);
}

#[test]
fn secret_formatting_is_redacted() {
    let key = LicenseKey::new("SECRET-LICENSE-KEY").unwrap();
    let token = AccessToken::new("SECRET-TOKEN").unwrap();
    let private = DeviceKeyPair::new(DevicePublicKey::new("public").unwrap(), "PRIVATE").unwrap();

    assert!(!key.debug_string().contains("SECRET-LICENSE-KEY"));
    assert!(!key.to_string().contains("SECRET-LICENSE-KEY"));
    assert!(!token.debug_string().contains("SECRET-TOKEN"));
    assert!(!token.to_string().contains("SECRET-TOKEN"));
    assert!(!private.debug_string().contains("PRIVATE"));
}

#[test]
fn purchase_email_validates_and_normalizes() {
    let email = PurchaseEmail::new(" Buyer@Example.COM ").unwrap();
    assert_eq!(email.as_str(), "buyer@example.com");
    assert_eq!(
        PurchaseEmail::new("not-an-email").err().unwrap(),
        AuthError::InvalidPurchaseEmail
    );
}

#[test]
fn short_license_keys_mask_to_what_they_have() {
    let key = LicenseKey::new("AB").unwrap();
    assert_eq!(key.masked().as_str(), "••••-AB");
    let key = LicenseKey::new("\t\nXYZ-98765\u{3000}").unwrap();
    assert_eq!(key.expose_secret(), "XYZ-98765");
    assert_eq!(MaskedLicenseKey::from_license_key(&key).as_str(), "••••-8765");
}

#[test]
fn purchase_email_edge_cases() {
    assert_eq!(PurchaseEmail::new("a@b.c").unwrap().as_str(), "a@b.c");
    assert!(PurchaseEmail::new("a@@b.c").is_err());
    assert!(PurchaseEmail::new("a@b@c.d").is_err());
    assert!(PurchaseEmail::new("a@.b").is_err());
    assert!(PurchaseEmail::new("a@b.").is_err());
    assert!(PurchaseEmail::new("a@bc").is_err());
    assert!(PurchaseEmail::new("   ").is_err());
    assert!(PurchaseEmail::new("@b.c").is_ok());
    assert_eq!(PurchaseEmail::new("X@Y.Z").unwrap().to_string(), "x@y.z");
}

#[test]
fn every_validated_type_rejects_blank_input_with_its_error() {
    assert_eq!(MaskedLicenseKey::new(" ").err().unwrap(), AuthError::InvalidLicenseKey);
    assert_eq!(AccessToken::new("").err().unwrap(), AuthError::ReauthRequired);
    assert_eq!(DevicePublicKey::new(" \t").err().unwrap(), AuthError::InvalidDeviceIdentity);
    assert_eq!(DeviceId::new("").err().unwrap(), AuthError::InvalidDeviceIdentity);
    assert_eq!(ResetRequestId::new("  ").err().unwrap(), AuthError::InvalidResetRequest);
    assert!(DeviceKeyPair::new(DevicePublicKey::new("p").unwrap(), "  ").is_err());
    assert!(DeviceFingerprint::new("linux", " ", "x86_64", None).is_err());
    let fp = DeviceFingerprint::new(" linux ", "linux", "x86_64", None).unwrap();
    assert_eq!(fp.platform, "linux");
}

#[test]
fn key_pair_keeps_private_material_untrimmed() {
    let pair = DeviceKeyPair::new(DevicePublicKey::new("public").unwrap(), " secret ").unwrap();
    assert_eq!(pair.expose_private_key_material(), " secret ");
    assert_eq!(pair.public_key().as_str(), "public");
    assert_eq!(
        pair.debug_string(),
        "DeviceKeyPair { public_key: DevicePublicKey(\"public\"), private_key_material: \"<redacted>\" }"
    );
}

#[test]
fn device_id_is_base64_of_sha256_prefix() {
    let id = DeviceId::from_public_key(&DevicePublicKey::new("public").unwrap());
    // 18 bytes encode to 24 base64 characters without padding.
    assert_eq!(id.as_str().len(), 24);
    assert_eq!(id, DeviceId::from_public_key(&DevicePublicKey::new(" public ").unwrap()));
    assert_ne!(id, DeviceId::from_public_key(&DevicePublicKey::new("other").unwrap()));
    assert_eq!(id.as_str(), "76HzdddhlPpRo1Vql+ZB5haF");
}

#[test]
fn error_codes_and_messages() {
    assert_eq!(AuthError::WorkerUnreachable.code(), "worker_unreachable");
    assert_eq!(AuthError::Storage("disk".into()).code(), "storage");
    assert_eq!(AuthError::Storage("disk".into()).to_string(), "storage error: disk");
    assert_eq!(
        AuthError::DeviceAlreadyBound.to_string(),
        "license is already bound to another device"
    );
}
