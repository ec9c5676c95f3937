use license_control_suite::modules::admin_dashboard::adapters::{AdminApi, SessionStore};
use license_control_suite::modules::admin_dashboard::auth::{
    finish_login, login_with_challenge, verify_request_for, AuthError, AuthSession,
};
use license_control_suite::modules::admin_dashboard::authz::{can_read, can_write_reset};
use license_control_suite::modules::admin_dashboard::compatibility::{
    assert_shared_contracts_compatibility, supported_shared_contracts_range,
};
use license_control_suite::modules::admin_dashboard::ops::{compute_health, HealthInput};
use license_control_suite::modules::admin_dashboard::queue::{approve, reject, QueueError};
use license_control_suite::modules::admin_dashboard::realtime::{backoff_step_sec, should_apply_delta};
use license_control_suite::modules::shared_contracts::dto::{
    AdminAuthChallengeRequest, AdminAuthChallengeResponse, AdminAuthVerifyRequest,
    AdminAuthVerifyResponse, AdminResetDecisionResponse, DeviceResetStatusResponse,
};
use license_control_suite::modules::shared_contracts::errors::{ApiError, ErrorCode};
use license_control_suite::modules::shared_contracts::state::{LicenseState, ResetRequestState};
use license_control_suite::modules::shared_contracts::versioning::{CompatibilityInfo, SemverChange};

struct FakeAdmin {
    fail_verify: bool,
}

impl AdminApi for FakeAdmin {
    fn may_answer_challenge(
        &self,
        _req: AdminAuthChallengeRequest,
        _answer: Result<AdminAuthChallengeResponse, ApiError>,
    ) -> bool {
        true
    }

    fn may_answer_verify(
        &self,
        _req: AdminAuthVerifyRequest,
        _answer: Result<AdminAuthVerifyResponse, ApiError>,
    ) -> bool {
        true
    }

    fn may_answer_approve(
        &self,
        _id: &str,
        _key: &str,
        _answer: Result<AdminResetDecisionResponse, ApiError>,
    ) -> bool {
        true
    }

    fn may_answer_reject(
        &self,
        _id: &str,
        _key: &str,
        _answer: Result<AdminResetDecisionResponse, ApiError>,
    ) -> bool {
        true
    }

    fn get_challenge(&self, req: &AdminAuthChallengeRequest) -> Result<AdminAuthChallengeResponse, ApiError> {
        Ok(AdminAuthChallengeResponse {
            challenge_id: format!("ch-{}", req.operator_id),
            nonce: "n".into(),
            expires_in_sec: 60,
        })
    }

    fn verify_challenge(&self, req: &AdminAuthVerifyRequest) -> Result<AdminAuthVerifyResponse, ApiError> {
        if self.fail_verify {
            return Err(ApiError::new(ErrorCode::AdminAuthInvalid, "bad signature", false, "req-1"));
        }
        assert_eq!(req.challenge_id, "ch-op");
        Ok(AdminAuthVerifyResponse {
            admin_access_token: "admin-token".into(),
            expires_in_sec: 900,
            scopes: vec!["admin:read".into()],
        })
    }

    fn list_pending_resets(&self) -> Result<Vec<DeviceResetStatusResponse>, ApiError> {
        Ok(vec![])
    }

    fn approve_reset(&self, id: &str, _key: &str) -> Result<AdminResetDecisionResponse, ApiError> {
        Ok(AdminResetDecisionResponse {
            reset_request_id: id.into(),
            status: ResetRequestState::Approved,
            license_state: LicenseState::Unbound,
        })
    }

    fn reject_reset(&self, _id: &str, _key: &str) -> Result<AdminResetDecisionResponse, ApiError> {
        Err(ApiError::new(ErrorCode::AdminForbidden, "forbidden", false, "req-2"))
    }
}

#[derive(Default)]
struct MemorySessions {
    saved: Option<AuthSession>,
}

impl SessionStore for MemorySessions {
    fn saved(&self) -> Option<AuthSession> {
        self.saved.clone()
    }

    fn save_session(&mut self, session: AuthSession) -> Result<(), String> {
        self.saved = Some(session);
        Ok(())
    }

    fn load_session(&self) -> Option<AuthSession> {
        self.saved.clone()
    }
}

#[test]
fn login_saves_the_verified_session() {
    let mut store = MemorySessions::default();
    let session = login_with_challenge(&FakeAdmin { fail_verify: false }, &mut store, "op", "sig").unwrap();
    assert_eq!(session.operator_id, "op");
    assert_eq!(session.admin_access_token, "admin-token");
    assert_eq!(store.load_session(), Some(session));
}

#[test]
fn failed_verification_reports_remote_message() {
    let mut store = MemorySessions::default();
    let err = login_with_challenge(&FakeAdmin { fail_verify: true }, &mut store, "op", "sig").unwrap_err();
    assert_eq!(err, AuthError::Remote("bad signature".into()));
    assert!(store.load_session().is_none());
}

#[test]
fn queue_decisions_map_errors() {
    let api = FakeAdmin { fail_verify: false };
    assert_eq!(approve(&api, "reset-1", "k").unwrap().reset_request_id, "reset-1");
    assert_eq!(reject(&api, "reset-1", "k").unwrap_err(), QueueError::Remote("forbidden".into()));
}

#[test]
fn scopes_gate_reading_and_writing() {
    let read = vec!["admin:read".to_string()];
    let write = vec!["other".to_string(), "admin:reset:write".to_string()];
    let none = vec!["admin:readx".to_string()];
    assert!(can_read(&read));
    assert!(!can_write_reset(&read));
    assert!(can_read(&write));
    assert!(can_write_reset(&write));
    assert!(!can_read(&none));
    assert!(!can_read(&[]));
}

#[test]
fn health_is_stale_past_threshold() {
    let h = compute_health(HealthInput {
        pending_count: 3,
        now_epoch_sec: 100,
        last_event_epoch_sec: 40,
        stale_threshold_sec: 59,
    });
    assert_eq!(h.pending_count, 3);
    assert!(h.is_stale);
    let future = compute_health(HealthInput {
        pending_count: 0,
        now_epoch_sec: 10,
        last_event_epoch_sec: 50,
        stale_threshold_sec: 0,
    });
    assert!(!future.is_stale);
}

#[test]
fn backoff_steps_and_deltas() {
    assert_eq!(
        (0..6).map(backoff_step_sec).collect::<Vec<_>>(),
        vec![1, 2, 5, 10, 30, 30]
    );
    assert!(should_apply_delta(true));
    assert!(!should_apply_delta(false));
}

#[test]
fn compatibility_is_one_x() {
    let range = supported_shared_contracts_range();
    assert_eq!(range.min, "1.0.0");
    assert_eq!(range.max_exclusive, "2.0.0");
    assert_eq!(assert_shared_contracts_compatibility(), Ok(()));
    assert_eq!(CompatibilityInfo::current().contract_version, "1.0.0");
}

#[test]
fn breaking_changes_need_a_major_release() {
    assert_eq!(
        CompatibilityInfo::is_change_allowed(SemverChange::Patch, true),
        Err("breaking changes are not allowed in patch releases")
    );
    assert_eq!(
        CompatibilityInfo::is_change_allowed(SemverChange::Minor, true),
        Err("breaking changes are not allowed in minor releases")
    );
    assert_eq!(CompatibilityInfo::is_change_allowed(SemverChange::Major, true), Ok(()));
    assert_eq!(CompatibilityInfo::is_change_allowed(SemverChange::Patch, false), Ok(()));
}

#[test]
fn finishing_a_login_saves_the_verified_session() {
    let mut store = MemorySessions::default();
    let err = ApiError::new(ErrorCode::AdminAuthInvalid, "expired challenge", false, "r");
    assert_eq!(
        finish_login(&mut store, "op", Err(err)),
        Err(AuthError::Remote("expired challenge".into()))
    );
    assert!(store.load_session().is_none());
    let verified = AdminAuthVerifyResponse {
        admin_access_token: "t".into(),
        expires_in_sec: 30,
        scopes: vec!["admin:write".into()],
    };
    let session = finish_login(&mut store, "op-2", Ok(verified)).unwrap();
    assert_eq!(session.operator_id, "op-2");
    assert_eq!(session.scopes, vec!["admin:write".to_string()]);
    assert_eq!(store.load_session(), Some(session));
}

#[test]
fn the_signature_check_carries_the_challenge_id() {
    let challenge = AdminAuthChallengeResponse {
        challenge_id: "ch-9".into(),
        nonce: "n".into(),
        expires_in_sec: 60,
    };
    let request = verify_request_for("op", "sig", Ok(challenge)).unwrap();
    assert_eq!((request.operator_id.as_str(), request.challenge_id.as_str(), request.signature.as_str()), ("op", "ch-9", "sig"));
    let err = ApiError::new(ErrorCode::AdminAuthInvalid, "no challenge", false, "r");
    assert_eq!(verify_request_for("op", "sig", Err(err)).unwrap_err(), AuthError::Remote("no challenge".into()));
}
