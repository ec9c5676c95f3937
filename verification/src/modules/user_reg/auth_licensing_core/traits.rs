//! The ports of the licensing core: the licensing worker, the secret store,
//! the local state store, the device identity and the clock.

use super::domain::{
    AccessToken, ActivationOutcome, ActivationRequest, AuthError, DeviceFingerprint,
    DeviceKeyPair, DeviceResetRequest, LicenseKey, ResetRequestId, ValidationOutcome,
};
use super::state::{DeviceResetStatus, SessionState};
use vstd::prelude::*;

verus! {

/// An error that a store reports about itself (I/O or encoding).
pub open spec fn is_store_error(e: AuthError) -> bool {
    e is Storage || e is Serialization
}

/// What a secret store holds.
pub struct SecretsView {
    pub license_key: Option<LicenseKey>,
    pub access_token: Option<AccessToken>,
    pub device_keypair: Option<DeviceKeyPair>,
}

/// What a local state store holds.
pub struct LocalStateView {
    pub session_state: SessionState,
    pub reset_status: Option<DeviceResetStatus>,
}

/// Every request a worker client has been handed, in order, per endpoint.
#[derive(Clone)]
pub struct WorkerRequests {
    pub activations: Vec<ActivationRequest>,
    pub validations: Vec<AccessToken>,
    pub reset_requests: Vec<DeviceResetRequest>,
    pub status_queries: Vec<ResetRequestId>,
}

/// `after` is `before` with `request` added to the activations.
pub open spec fn logged_activation(
    before: WorkerRequests,
    after: WorkerRequests,
    request: ActivationRequest,
) -> bool {
    &&& after.activations@ == before.activations@.push(request)
    &&& after.validations@ == before.validations@
    &&& after.reset_requests@ == before.reset_requests@
    &&& after.status_queries@ == before.status_queries@
}

/// `after` is `before` with `token` added to the validations.
pub open spec fn logged_validation(
    before: WorkerRequests,
    after: WorkerRequests,
    token: AccessToken,
) -> bool {
    &&& after.activations@ == before.activations@
    &&& after.validations@ == before.validations@.push(token)
    &&& after.reset_requests@ == before.reset_requests@
    &&& after.status_queries@ == before.status_queries@
}

/// `after` is `before` with `request` added to the reset requests.
pub open spec fn logged_reset_request(
    before: WorkerRequests,
    after: WorkerRequests,
    request: DeviceResetRequest,
) -> bool {
    &&& after.activations@ == before.activations@
    &&& after.validations@ == before.validations@
    &&& after.reset_requests@ == before.reset_requests@.push(request)
    &&& after.status_queries@ == before.status_queries@
}

/// `after` is `before` with `request_id` added to the status queries.
pub open spec fn logged_status_query(
    before: WorkerRequests,
    after: WorkerRequests,
    request_id: ResetRequestId,
) -> bool {
    &&& after.activations@ == before.activations@
    &&& after.validations@ == before.validations@
    &&& after.reset_requests@ == before.reset_requests@
    &&& after.status_queries@ == before.status_queries@.push(request_id)
}

/// `after` holds the same requests as `before`.
pub open spec fn same_requests(before: WorkerRequests, after: WorkerRequests) -> bool {
    &&& after.activations@ == before.activations@
    &&& after.validations@ == before.validations@
    &&& after.reset_requests@ == before.reset_requests@
    &&& after.status_queries@ == before.status_queries@
}

/// The licensing worker, reached over the network. Each call hands the
/// worker its request, which the client records, and gives back one of the
/// answers the worker may give to it.
pub trait WorkerClient {
    /// The requests this client has handed the worker so far.
    spec fn received(&self) -> WorkerRequests;

    /// `answer` is an answer the worker may give to `request`.
    spec fn may_answer_activation(
        &self,
        request: ActivationRequest,
        answer: Result<ActivationOutcome, AuthError>,
    ) -> bool;

    /// `answer` is an answer the worker may give about `token`.
    spec fn may_answer_validation(
        &self,
        token: AccessToken,
        answer: Result<ValidationOutcome, AuthError>,
    ) -> bool;

    /// `answer` is an answer the worker may give to the reset `request`.
    spec fn may_answer_reset_request(
        &self,
        request: DeviceResetRequest,
        answer: Result<DeviceResetStatus, AuthError>,
    ) -> bool;

    /// `answer` is an answer the worker may give about `request_id`.
    spec fn may_answer_status(
        &self,
        request_id: ResetRequestId,
        answer: Result<DeviceResetStatus, AuthError>,
    ) -> bool;

    fn activate(&mut self, request: ActivationRequest) -> (r: Result<ActivationOutcome, AuthError>)
        ensures
            logged_activation(old(self).received(), final(self).received(), request),
            old(self).may_answer_activation(request, r),
    ;

    fn validate_session(&mut self, token: AccessToken) -> (r: Result<ValidationOutcome, AuthError>)
        ensures
            logged_validation(old(self).received(), final(self).received(), token),
            old(self).may_answer_validation(token, r),
    ;

    fn request_device_reset(&mut self, request: DeviceResetRequest) -> (r: Result<
        DeviceResetStatus,
        AuthError,
    >)
        ensures
            logged_reset_request(old(self).received(), final(self).received(), request),
            old(self).may_answer_reset_request(request, r),
    ;

    fn get_device_reset_status(&mut self, request_id: ResetRequestId) -> (r: Result<
        DeviceResetStatus,
        AuthError,
    >)
        ensures
            logged_status_query(old(self).received(), final(self).received(), request_id),
            old(self).may_answer_status(request_id, r),
    ;
}

/// Storage for the secrets of a session. A read gives back what the last
/// successful write stored; a write that fails reports a store error. A
/// store that never fails keeps never failing.
pub trait SecretStore {
    spec fn secrets(&self) -> SecretsView;

    /// Every operation of this store succeeds.
    spec fn never_fails(&self) -> bool;

    fn put_license_key(&mut self, value: LicenseKey) -> (r: Result<(), AuthError>)
        ensures
            r is Ok ==> final(self).secrets() == (SecretsView {
                license_key: Some(value),
                ..old(self).secrets()
            }),
            r matches Err(e) ==> is_store_error(e),
            old(self).never_fails() ==> r is Ok,
            final(self).never_fails() == old(self).never_fails(),
    ;

    fn get_license_key(&self) -> (r: Result<Option<LicenseKey>, AuthError>)
        ensures
            r matches Ok(v) ==> v == self.secrets().license_key,
            self.never_fails() ==> r is Ok,
    ;

    fn put_access_token(&mut self, value: AccessToken) -> (r: Result<(), AuthError>)
        ensures
            r is Ok ==> final(self).secrets() == (SecretsView {
                access_token: Some(value),
                ..old(self).secrets()
            }),
            r matches Err(e) ==> is_store_error(e),
            old(self).never_fails() ==> r is Ok,
            final(self).never_fails() == old(self).never_fails(),
    ;

    fn get_access_token(&self) -> (r: Result<Option<AccessToken>, AuthError>)
        ensures
            r matches Ok(v) ==> v == self.secrets().access_token,
            self.never_fails() ==> r is Ok,
    ;

    fn put_device_keypair(&mut self, value: DeviceKeyPair) -> (r: Result<(), AuthError>)
        ensures
            r is Ok ==> final(self).secrets() == (SecretsView {
                device_keypair: Some(value),
                ..old(self).secrets()
            }),
            r matches Err(e) ==> is_store_error(e),
            old(self).never_fails() ==> r is Ok,
            final(self).never_fails() == old(self).never_fails(),
    ;

    fn get_device_keypair(&self) -> (r: Result<Option<DeviceKeyPair>, AuthError>)
        ensures
            r matches Ok(v) ==> v == self.secrets().device_keypair,
            self.never_fails() ==> r is Ok,
    ;

    /// Forgets the license key and the access token; the device key pair stays.
    fn clear_session_secrets(&mut self) -> (r: Result<(), AuthError>)
        ensures
            r is Ok ==> final(self).secrets() == (SecretsView {
                license_key: None,
                access_token: None,
                ..old(self).secrets()
            }),
            r matches Err(e) ==> is_store_error(e),
            old(self).never_fails() ==> r is Ok,
            final(self).never_fails() == old(self).never_fails(),
    ;
}

/// Storage for the non-secret session state and the last reset status. A
/// read gives back what the last successful write stored; every failure is a
/// store error. A store that never fails keeps never failing.
pub trait LocalStateStore {
    spec fn local(&self) -> LocalStateView;

    /// Every operation of this store succeeds.
    spec fn never_fails(&self) -> bool;

    fn save_session_state(&mut self, state: SessionState) -> (r: Result<(), AuthError>)
        ensures
            r is Ok ==> final(self).local() == (LocalStateView {
                session_state: state,
                ..old(self).local()
            }),
            r matches Err(e) ==> is_store_error(e),
            old(self).never_fails() ==> r is Ok,
            final(self).never_fails() == old(self).never_fails(),
    ;

    fn load_session_state(&self) -> (r: Result<SessionState, AuthError>)
        ensures
            r matches Ok(s) ==> s == self.local().session_state,
            r matches Err(e) ==> is_store_error(e),
            self.never_fails() ==> r is Ok,
    ;

    fn save_reset_status(&mut self, status: DeviceResetStatus) -> (r: Result<(), AuthError>)
        ensures
            r is Ok ==> final(self).local() == (LocalStateView {
                reset_status: Some(status),
                ..old(self).local()
            }),
            r matches Err(e) ==> is_store_error(e),
            old(self).never_fails() ==> r is Ok,
            final(self).never_fails() == old(self).never_fails(),
    ;

    fn load_reset_status(&self) -> (r: Result<Option<DeviceResetStatus>, AuthError>)
        ensures
            r matches Ok(s) ==> s == self.local().reset_status,
            r matches Err(e) ==> is_store_error(e),
            self.never_fails() ==> r is Ok,
    ;
}

/// The device's identity: its key pair and hardware fingerprint. Creating
/// the key pair does not change which fingerprints the device reports.
pub trait DeviceIdentityProvider {
    /// `keypair` is a key pair this device may hand out.
    spec fn gives_keypair(&self, keypair: DeviceKeyPair) -> bool;

    /// `fingerprint` is a fingerprint this device may report.
    spec fn gives_fingerprint(&self, fingerprint: DeviceFingerprint) -> bool;

    /// Both operations of this device succeed.
    spec fn never_fails(&self) -> bool;

    fn get_or_create_keypair(&mut self) -> (r: Result<DeviceKeyPair, AuthError>)
        ensures
            r matches Ok(k) ==> old(self).gives_keypair(k),
            forall|f: DeviceFingerprint| #[trigger]
                final(self).gives_fingerprint(f) == old(self).gives_fingerprint(f),
            old(self).never_fails() ==> r is Ok,
            final(self).never_fails() == old(self).never_fails(),
    ;

    fn collect_fingerprint(&self) -> (r: Result<DeviceFingerprint, AuthError>)
        ensures
            r matches Ok(f) ==> self.gives_fingerprint(f),
            self.never_fails() ==> r is Ok,
    ;
}

/// The wall clock, in milliseconds since the Unix epoch.
pub trait Clock {
    /// `t` is a reading this clock may give.
    spec fn may_read(&self, t: i64) -> bool;

    fn now_ms(&self) -> (r: i64)
        ensures
            self.may_read(r),
    ;
}

} // verus!
