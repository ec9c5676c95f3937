use license_control_suite::modules::auth_core::adapters::{ApiClient, LocalStore};
use license_control_suite::modules::auth_core::auth::{
    activate, apply_activation, apply_renewal, map_api_error, renew, AuthError,
};
use license_control_suite::modules::auth_core::models::LocalSession;
use license_control_suite::modules::auth_core::policy::{offline_access, OfflineDecision};
use license_control_suite::modules::auth_core::reset::{
    apply_reset_submission, poll_step, poll_until_terminal, submit_reset_request, PollStatus, ResetError,
};
use license_control_suite::modules::auth_core::session::{should_force_reauth, SessionState};
use license_control_suite::modules::shared_contracts::dto::{
    ActivateRequest, ActivateResponse, DeviceMetadata, DeviceResetRequest,
    DeviceResetRequestAccepted, DeviceResetStatusResponse, Platform, SessionRenewResponse,
};
use license_control_suite::modules::shared_contracts::errors::{ApiError, ErrorCode};
use license_control_suite::modules::shared_contracts::state::{LicenseState, ResetRequestState};
use std::cell::Cell;

struct FakeApi {
    polls_until_done: Cell<u32>,
}

impl ApiClient for FakeApi {
    fn may_answer_activation(
        &self,
        _req: ActivateRequest,
        _key: &str,
        _answer: Result<ActivateResponse, ApiError>,
    ) -> bool {
        true
    }

    fn may_answer_renewal(&self, _token: &str, _answer: Result<SessionRenewResponse, ApiError>) -> bool {
        true
    }

    fn may_answer_submission(
        &self,
        _req: DeviceResetRequest,
        _key: &str,
        _answer: Result<DeviceResetRequestAccepted, ApiError>,
    ) -> bool {
        true
    }

    fn may_answer_status(&self, _id: &str, _answer: Result<DeviceResetStatusResponse, ApiError>) -> bool {
        true
    }

    fn activate(&self, req: &ActivateRequest, _key: &str) -> Result<ActivateResponse, ApiError> {
        if req.license_key == "bad" {
            return Err(ApiError::new(ErrorCode::LicenseInvalid, "invalid", false, "r"));
        }
        Ok(ActivateResponse {
            license_id: "lic-1".into(),
            state: LicenseState::Active,
            access_token: "tok-1".into(),
            expires_in_sec: 3600,
        })
    }

    fn renew_session(&self, _token: &str) -> Result<SessionRenewResponse, ApiError> {
        Ok(SessionRenewResponse { access_token: "tok-2".into(), expires_in_sec: 7200 })
    }

    fn submit_reset(&self, _req: &DeviceResetRequest, _key: &str) -> Result<DeviceResetRequestAccepted, ApiError> {
        Ok(DeviceResetRequestAccepted { reset_request_id: "reset-7".into(), status: ResetRequestState::Pending })
    }

    fn reset_status(&self, id: &str) -> Result<DeviceResetStatusResponse, ApiError> {
        let left = self.polls_until_done.get();
        let status = if left == 0 { ResetRequestState::Approved } else { ResetRequestState::UnderReview };
        self.polls_until_done.set(left.saturating_sub(1));
        Ok(DeviceResetStatusResponse {
            reset_request_id: id.into(),
            status,
            license_state: LicenseState::ResetPending,
            message: String::new(),
        })
    }
}

#[derive(Default)]
struct MemoryStore {
    session: Option<LocalSession>,
    reset_id: Option<String>,
}

impl LocalStore for MemoryStore {
    fn stored_session(&self) -> Option<LocalSession> {
        self.session.clone()
    }

    fn stored_reset_request_id(&self) -> Option<String> {
        self.reset_id.clone()
    }

    fn load_session(&self) -> Option<LocalSession> {
        self.session.clone()
    }

    fn save_session(&mut self, session: LocalSession) -> Result<(), String> {
        self.session = Some(session);
        Ok(())
    }

    fn save_reset_request_id(&mut self, id: String) -> Result<(), String> {
        self.reset_id = Some(id);
        Ok(())
    }

    fn load_reset_request_id(&self) -> Option<String> {
        self.reset_id.clone()
    }
}

fn request(key: &str) -> ActivateRequest {
    ActivateRequest {
        license_key: key.into(),
        device: DeviceMetadata { device_id: "d".into(), platform: Platform::Linux, app_version: "1".into() },
    }
}

#[test]
fn activation_stores_a_fresh_session() {
    let api = FakeApi { polls_until_done: Cell::new(0) };
    let mut store = MemoryStore::default();
    activate(&api, &mut store, &request("good"), "k").unwrap();
    let s = store.load_session().unwrap();
    assert_eq!((s.binding_epoch, s.token_epoch, s.access_token.as_str()), (1, 1, "tok-1"));
    assert_eq!(activate(&api, &mut store, &request("bad"), "k").unwrap_err(), AuthError::LicenseInvalid);
}

#[test]
fn renewal_catches_token_epoch_up() {
    let api = FakeApi { polls_until_done: Cell::new(0) };
    let mut store = MemoryStore::default();
    store.session = Some(LocalSession {
        license_id: "lic".into(),
        access_token: "old".into(),
        expires_in_sec: 1,
        binding_epoch: 3,
        token_epoch: 2,
    });
    renew(&api, &mut store, "old").unwrap();
    let s = store.load_session().unwrap();
    assert_eq!((s.access_token.as_str(), s.expires_in_sec, s.token_epoch), ("tok-2", 7200, 3));
    assert!(!should_force_reauth(&SessionState { binding_epoch: s.binding_epoch, token_epoch: s.token_epoch }));
}

#[test]
fn api_errors_map_to_auth_errors() {
    let e = |code| ApiError::new(code, "msg", false, "r");
    assert_eq!(map_api_error(e(ErrorCode::LicenseRevoked)), AuthError::LicenseRevoked);
    assert_eq!(map_api_error(e(ErrorCode::SessionReauthRequired)), AuthError::SessionReauthRequired);
    assert_eq!(map_api_error(e(ErrorCode::AdminForbidden)), AuthError::Remote("msg".into()));
}

#[test]
fn offline_grace_window() {
    assert_eq!(offline_access(100, 150, 50), OfflineDecision::Allowed);
    assert_eq!(
        offline_access(100, 151, 50),
        OfflineDecision::Denied { reason: "offline grace expired".into() }
    );
    assert_eq!(offline_access(200, 100, 0), OfflineDecision::Allowed);
}

#[test]
fn reset_submission_and_polling() {
    let api = FakeApi { polls_until_done: Cell::new(2) };
    let mut store = MemoryStore::default();
    let req = DeviceResetRequest {
        license_key: "k".into(),
        purchaser_email: "e@x.y".into(),
        device: DeviceMetadata { device_id: "d".into(), platform: Platform::Macos, app_version: "1".into() },
        order_ref: None,
    };
    submit_reset_request(&api, &mut store, &req, "k").unwrap();
    assert_eq!(store.load_reset_request_id().as_deref(), Some("reset-7"));
    assert_eq!(poll_until_terminal(&api, "reset-7", 2), Err(ResetError::PollAttemptsExhausted));
    assert_eq!(poll_until_terminal(&api, "reset-7", 1), Ok(PollStatus::TerminalApproved));
    assert_eq!(poll_until_terminal(&api, "reset-7", 0), Err(ResetError::PollAttemptsExhausted));
}

#[test]
fn stale_token_epoch_forces_reauth() {
    assert!(should_force_reauth(&SessionState { binding_epoch: 2, token_epoch: 1 }));
}

/// A store whose writes always fail.
struct BrokenStore;

impl LocalStore for BrokenStore {
    fn stored_session(&self) -> Option<LocalSession> {
        None
    }

    fn stored_reset_request_id(&self) -> Option<String> {
        None
    }

    fn load_session(&self) -> Option<LocalSession> {
        None
    }

    fn save_session(&mut self, _session: LocalSession) -> Result<(), String> {
        Err("disk full".into())
    }

    fn save_reset_request_id(&mut self, _id: String) -> Result<(), String> {
        Err("disk full".into())
    }

    fn load_reset_request_id(&self) -> Option<String> {
        None
    }
}

fn activation_answer() -> ActivateResponse {
    ActivateResponse {
        license_id: "lic-9".into(),
        state: LicenseState::Active,
        access_token: "tok-9".into(),
        expires_in_sec: 60,
    }
}

#[test]
fn activation_answers_are_recorded_or_mapped() {
    let mut store = MemoryStore::default();
    let err = ApiError::new(ErrorCode::LicenseAlreadyBound, "bound", false, "r");
    assert_eq!(apply_activation(&mut store, Err(err)), Err(AuthError::LicenseAlreadyBound));
    assert!(store.load_session().is_none());
    assert_eq!(apply_activation(&mut store, Ok(activation_answer())), Ok(activation_answer()));
    let s = store.load_session().unwrap();
    assert_eq!((s.license_id.as_str(), s.access_token.as_str(), s.expires_in_sec), ("lic-9", "tok-9", 60));
    assert_eq!((s.binding_epoch, s.token_epoch), (1, 1));
    assert_eq!(
        apply_activation(&mut BrokenStore, Ok(activation_answer())),
        Err(AuthError::Storage("disk full".into()))
    );
}

#[test]
fn renewal_without_a_stored_session_stores_nothing() {
    let mut store = MemoryStore::default();
    let renewed = SessionRenewResponse { access_token: "tok-3".into(), expires_in_sec: 5 };
    assert_eq!(apply_renewal(&mut store, Ok(renewed.clone())), Ok(renewed));
    assert!(store.load_session().is_none());
    let err = ApiError::new(ErrorCode::SessionReauthRequired, "again", false, "r");
    assert_eq!(apply_renewal(&mut store, Err(err)), Err(AuthError::SessionReauthRequired));
}

#[test]
fn reset_submission_answers_are_recorded_or_reported() {
    let mut store = MemoryStore::default();
    let err = ApiError::new(ErrorCode::AdminForbidden, "nope", false, "r");
    assert_eq!(apply_reset_submission(&mut store, Err(err)), Err(ResetError::Remote("nope".into())));
    assert!(store.load_reset_request_id().is_none());
    let accepted = DeviceResetRequestAccepted {
        reset_request_id: "reset-2".into(),
        status: ResetRequestState::Pending,
    };
    assert_eq!(apply_reset_submission(&mut store, Ok(accepted.clone())), Ok(accepted.clone()));
    assert_eq!(store.load_reset_request_id().as_deref(), Some("reset-2"));
    assert_eq!(
        apply_reset_submission(&mut BrokenStore, Ok(accepted)),
        Err(ResetError::Storage("disk full".into()))
    );
}

#[test]
fn each_status_answer_decides_the_next_poll() {
    let answer = |status| {
        Ok(DeviceResetStatusResponse {
            reset_request_id: "reset-7".into(),
            status,
            license_state: LicenseState::ResetPending,
            message: String::new(),
        })
    };
    assert_eq!(poll_step(answer(ResetRequestState::Rejected)), Some(Ok(PollStatus::TerminalRejected)));
    assert_eq!(poll_step(answer(ResetRequestState::Expired)), Some(Ok(PollStatus::TerminalExpired)));
    assert_eq!(poll_step(answer(ResetRequestState::Pending)), None);
    let err = ApiError::new(ErrorCode::AdminForbidden, "down", true, "r");
    assert_eq!(poll_step(Err(err)), Some(Err(ResetError::Remote("down".into()))));
}
