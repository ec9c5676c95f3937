use license_control_suite::modules::user_reg::auth_licensing_core::{
    AccessToken, DeviceKeyPair, DevicePublicKey, LicenseKey, SecretStore,
};
use license_control_suite::modules::user_reg::auth_licensing_tauri::persistence::join_path;
use license_control_suite::modules::user_reg::auth_licensing_tauri::{
    AppDataStateStore, InMemorySecretStore, KeychainSecretStore,
};
use std::time::{SystemTime, UNIX_EPOCH};

fn real_keyring_smoke_is_enabled_value(value: Option<&str>) -> bool {
    matches!(value, Some("1") | Some("true") | Some("TRUE") | Some("yes") | Some("YES"))
}

fn disposable_keyring_test_namespace() -> String {
    let stamp = SystemTime::now()
        .duration_since(UNIX_EPOCH)
        .expect("system time should be after epoch")
        .as_millis();
    format!("license-control-suite.keyring-smoke.{stamp}")
}

fn disposable_keyring_test_store() -> KeychainSecretStore {
    KeychainSecretStore::with_namespace(
        "license-control-suite.real-keyring-smoke",
        &disposable_keyring_test_namespace(),
    )
}

#[test]
fn clearing_session_removes_secrets() {
    let mut store = InMemorySecretStore::default();
    store.put_license_key(LicenseKey::new("key").unwrap()).unwrap();
    store.put_access_token(AccessToken::new("token").unwrap()).unwrap();
    store
        .put_device_keypair(
            DeviceKeyPair::new(DevicePublicKey::new("public").unwrap(), "private").unwrap(),
        )
        .unwrap();
    store.clear_session_secrets().unwrap();
    assert!(store.get_license_key().unwrap().is_none());
    assert!(store.get_access_token().unwrap().is_none());
    assert!(store.get_device_keypair().unwrap().is_some());
}

#[test]
fn real_keyring_round_trip_runs_only_when_explicitly_enabled() {
    assert!(!real_keyring_smoke_is_enabled_value(None));
    assert!(!real_keyring_smoke_is_enabled_value(Some("0")));
    assert!(real_keyring_smoke_is_enabled_value(Some("1")));
}

#[test]
fn real_keyring_test_uses_disposable_namespace() {
    let store = disposable_keyring_test_store();
    assert_eq!(store.service_name(), "license-control-suite.real-keyring-smoke");
    assert!(store.license_key_entry_name().starts_with("license-control-suite.keyring-smoke."));
    assert!(store.access_token_entry_name().contains(".access_token"));
    assert!(store.device_keypair_entry_name().contains(".device_keypair"));
}

#[test]
fn keychain_default_entry_names() {
    let store = KeychainSecretStore::new_for_app("app");
    assert_eq!(store.service_name(), "app");
    assert_eq!(store.license_key_entry_name(), "license_key");
    assert_eq!(store.access_token_entry_name(), "access_token");
    assert_eq!(store.device_keypair_entry_name(), "device_keypair");
}

#[test]
fn app_data_file_names() {
    let plain = AppDataStateStore::new("/data");
    assert_eq!(plain.root(), "/data");
    assert_eq!(plain.session_filename(), "session_state.json");
    assert_eq!(plain.reset_filename(), "reset_status.json");
    let named = AppDataStateStore::with_namespace("/data", "client");
    assert_eq!(named.session_filename(), "client.session_state.json");
    assert_eq!(named.reset_filename(), "client.reset_status.json");
}

#[test]
fn app_data_paths_join_root_and_file_names() {
    let store = AppDataStateStore::new("/data/app");
    assert_eq!(store.session_state_path(), "/data/app/session_state.json");
    assert_eq!(store.reset_status_path(), "/data/app/reset_status.json");
    let namespaced = AppDataStateStore::with_namespace("/data/app/", "tenant");
    assert_eq!(namespaced.session_state_path(), "/data/app/tenant.session_state.json");
    assert_eq!(namespaced.reset_status_path(), "/data/app/tenant.reset_status.json");
}

#[test]
fn path_join_follows_unix_rules() {
    assert_eq!(join_path("", "state.json"), "state.json");
    assert_eq!(join_path("/root", "/etc/state.json"), "/etc/state.json");
    assert_eq!(join_path("/root/", "state.json"), "/root/state.json");
    assert_eq!(join_path("/root", "state.json"), "/root/state.json");
}
