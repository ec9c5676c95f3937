//! In-memory stores, a fixed device identity, a fixed clock and a scripted
//! worker, for exercising the licensing service without I/O.

use super::domain::{
    AccessToken, ActivationOutcome, ActivationRequest, AuthError, DeviceFingerprint,
    DeviceKeyPair, DevicePublicKey, DeviceResetRequest, LicenseKey, ResetRequestId,
    ValidationOutcome,
};
use super::service::AuthService;
use super::state::{DeviceResetStatus, SessionState};
use super::traits::{
    Clock, DeviceIdentityProvider, LocalStateStore, LocalStateView, SecretStore, SecretsView,
    WorkerClient, WorkerRequests,
};
use crate::cloning::clone_vec;
use crate::text::lemma_trim_noop;
use vstd::prelude::*;

verus! {

pub struct InMemorySecretStore {
    license_key: Option<LicenseKey>,
    access_token: Option<AccessToken>,
    device_keypair: Option<DeviceKeyPair>,
}

impl Default for InMemorySecretStore {
    fn default() -> (r: Self)
        ensures
            r.secrets() == (SecretsView {
                license_key: None,
                access_token: None,
                device_keypair: None,
            }),
    {
        InMemorySecretStore { license_key: None, access_token: None, device_keypair: None }
    }
}

impl SecretStore for InMemorySecretStore {
    open spec fn never_fails(&self) -> bool {
        true
    }

    closed spec fn secrets(&self) -> SecretsView {
        SecretsView {
            license_key: self.license_key,
            access_token: self.access_token,
            device_keypair: self.device_keypair,
        }
    }

    fn put_license_key(&mut self, value: LicenseKey) -> (r: Result<(), AuthError>) {
        self.license_key = Some(value);
        Ok(())
    }

    fn get_license_key(&self) -> (r: Result<Option<LicenseKey>, AuthError>)
        ensures
            r == Ok::<Option<LicenseKey>, AuthError>(self.secrets().license_key),
    {
        match &self.license_key {
            Some(k) => Ok(Some(k.clone())),
            None => Ok(None),
        }
    }

    fn put_access_token(&mut self, value: AccessToken) -> (r: Result<(), AuthError>) {
        self.access_token = Some(value);
        Ok(())
    }

    fn get_access_token(&self) -> (r: Result<Option<AccessToken>, AuthError>)
        ensures
            r == Ok::<Option<AccessToken>, AuthError>(self.secrets().access_token),
    {
        match &self.access_token {
            Some(t) => Ok(Some(t.clone())),
            None => Ok(None),
        }
    }

    fn put_device_keypair(&mut self, value: DeviceKeyPair) -> (r: Result<(), AuthError>) {
        self.device_keypair = Some(value);
        Ok(())
    }

    fn get_device_keypair(&self) -> (r: Result<Option<DeviceKeyPair>, AuthError>)
        ensures
            r == Ok::<Option<DeviceKeyPair>, AuthError>(self.secrets().device_keypair),
    {
        match &self.device_keypair {
            Some(p) => Ok(Some(p.clone())),
            None => Ok(None),
        }
    }

    fn clear_session_secrets(&mut self) -> (r: Result<(), AuthError>) {
        self.license_key = None;
        self.access_token = None;
        Ok(())
    }
}

pub struct InMemoryLocalStateStore {
    session_state: SessionState,
    reset_status: Option<DeviceResetStatus>,
}

impl Default for InMemoryLocalStateStore {
    fn default() -> (r: Self)
        ensures
            r.local() == (LocalStateView {
                session_state: SessionState::Unauthenticated,
                reset_status: None,
            }),
    {
        InMemoryLocalStateStore { session_state: SessionState::Unauthenticated, reset_status: None }
    }
}

impl LocalStateStore for InMemoryLocalStateStore {
    open spec fn never_fails(&self) -> bool {
        true
    }

    closed spec fn local(&self) -> LocalStateView {
        LocalStateView { session_state: self.session_state, reset_status: self.reset_status }
    }

    fn save_session_state(&mut self, state: SessionState) -> (r: Result<(), AuthError>) {
        self.session_state = state;
        Ok(())
    }

    fn load_session_state(&self) -> (r: Result<SessionState, AuthError>) {
        Ok(self.session_state.clone())
    }

    fn save_reset_status(&mut self, status: DeviceResetStatus) -> (r: Result<(), AuthError>) {
        self.reset_status = Some(status);
        Ok(())
    }

    fn load_reset_status(&self) -> (r: Result<Option<DeviceResetStatus>, AuthError>) {
        match &self.reset_status {
            Some(s) => Ok(Some(s.clone())),
            None => Ok(None),
        }
    }
}

/// A device whose key pair is `public`/`private` and whose fingerprint is a
/// Linux x86-64 machine.
pub struct FakeDeviceIdentityProvider {
    keypair: DeviceKeyPair,
    fingerprint: DeviceFingerprint,
}

impl FakeDeviceIdentityProvider {
    pub closed spec fn keypair_of(&self) -> DeviceKeyPair {
        self.keypair
    }

    pub closed spec fn fingerprint_of(&self) -> DeviceFingerprint {
        self.fingerprint
    }
}

impl Default for FakeDeviceIdentityProvider {
    fn default() -> (r: Self)
        ensures
            r.keypair_of().public_view()@ == "public"@,
            r.keypair_of().private_view() == "private"@,
            r.fingerprint_of().platform@ == "linux"@,
            r.fingerprint_of().os@ == "linux"@,
            r.fingerprint_of().arch@ == "x86_64"@,
            r.fingerprint_of().hostname_hash matches Some(h) && h@ == "host-hash"@,
    {
        proof {
            reveal_strlit("public");
            reveal_strlit("private");
            reveal_strlit("linux");
            reveal_strlit("x86_64");
            lemma_trim_noop("public"@);
            lemma_trim_noop("private"@);
            lemma_trim_noop("linux"@);
            lemma_trim_noop("x86_64"@);
        }
        let public_key = DevicePublicKey::new("public").unwrap();
        let keypair = DeviceKeyPair::new(public_key, "private").unwrap();
        let fingerprint = DeviceFingerprint::new(
            "linux",
            "linux",
            "x86_64",
            Some(String::from_str("host-hash")),
        ).unwrap();
        FakeDeviceIdentityProvider { keypair, fingerprint }
    }
}

impl DeviceIdentityProvider for FakeDeviceIdentityProvider {
    open spec fn gives_keypair(&self, keypair: DeviceKeyPair) -> bool {
        keypair == self.keypair_of()
    }

    open spec fn gives_fingerprint(&self, fingerprint: DeviceFingerprint) -> bool {
        fingerprint == self.fingerprint_of()
    }

    open spec fn never_fails(&self) -> bool {
        true
    }

    fn get_or_create_keypair(&mut self) -> (r: Result<DeviceKeyPair, AuthError>)
        ensures
            r == Ok::<DeviceKeyPair, AuthError>(old(self).keypair_of()),
            final(self).keypair_of() == old(self).keypair_of(),
            final(self).fingerprint_of() == old(self).fingerprint_of(),
    {
        Ok(self.keypair.clone())
    }

    fn collect_fingerprint(&self) -> (r: Result<DeviceFingerprint, AuthError>)
        ensures
            r == Ok::<DeviceFingerprint, AuthError>(self.fingerprint_of()),
    {
        Ok(self.fingerprint.clone())
    }
}

/// A clock that always reads the same instant.
pub struct FixedClock(pub i64);

impl Clock for FixedClock {
    open spec fn may_read(&self, t: i64) -> bool {
        t == self.0
    }

    fn now_ms(&self) -> (r: i64)
        ensures
            r == self.0,
    {
        self.0
    }
}

fn clone_result<T: Clone>(r: &Result<T, AuthError>) -> (c: Result<T, AuthError>)
    requires
        forall|x: T, y: T| call_ensures(T::clone, (&x,), y) ==> y == x,
    ensures
        c == *r,
{
    match r {
        Ok(v) => Ok(v.clone()),
        Err(e) => Err(e.clone()),
    }
}

/// The answer a scripted call gives: the scripted result, or an unreachable
/// worker when none was scripted.
pub open spec fn scripted<T>(r: Option<Result<T, AuthError>>) -> Result<T, AuthError> {
    match r {
        Some(x) => x,
        None => Err(AuthError::WorkerUnreachable),
    }
}

/// The scripted results and the recorded requests of a fake worker.
pub struct FakeWorkerView {
    pub activation_result: Option<Result<ActivationOutcome, AuthError>>,
    pub validation_result: Option<Result<ValidationOutcome, AuthError>>,
    pub reset_request_result: Option<Result<DeviceResetStatus, AuthError>>,
    pub reset_status_result: Option<Result<DeviceResetStatus, AuthError>>,
    pub activation_requests: Seq<ActivationRequest>,
    pub validation_requests: Seq<AccessToken>,
    pub reset_requests: Seq<DeviceResetRequest>,
    pub reset_status_requests: Seq<ResetRequestId>,
}

/// A worker that answers with scripted results and records every request.
pub struct FakeWorkerClient {
    activation_result: Option<Result<ActivationOutcome, AuthError>>,
    validation_result: Option<Result<ValidationOutcome, AuthError>>,
    reset_request_result: Option<Result<DeviceResetStatus, AuthError>>,
    reset_status_result: Option<Result<DeviceResetStatus, AuthError>>,
    activation_requests: Vec<ActivationRequest>,
    validation_requests: Vec<AccessToken>,
    reset_requests: Vec<DeviceResetRequest>,
    reset_status_requests: Vec<ResetRequestId>,
}

impl View for FakeWorkerClient {
    type V = FakeWorkerView;

    closed spec fn view(&self) -> FakeWorkerView {
        FakeWorkerView {
            activation_result: self.activation_result,
            validation_result: self.validation_result,
            reset_request_result: self.reset_request_result,
            reset_status_result: self.reset_status_result,
            activation_requests: self.activation_requests@,
            validation_requests: self.validation_requests@,
            reset_requests: self.reset_requests@,
            reset_status_requests: self.reset_status_requests@,
        }
    }
}

impl FakeWorkerClient {
    pub fn new() -> (r: Self)
        ensures
            r@.activation_result is None,
            r@.validation_result is None,
            r@.reset_request_result is None,
            r@.reset_status_result is None,
            r@.activation_requests.len() == 0,
            r@.validation_requests.len() == 0,
            r@.reset_requests.len() == 0,
            r@.reset_status_requests.len() == 0,
    {
        FakeWorkerClient {
            activation_result: None,
            validation_result: None,
            reset_request_result: None,
            reset_status_result: None,
            activation_requests: Vec::new(),
            validation_requests: Vec::new(),
            reset_requests: Vec::new(),
            reset_status_requests: Vec::new(),
        }
    }

    pub fn with_activation(self, result: Result<ActivationOutcome, AuthError>) -> (r: Self)
        ensures
            r@ == (FakeWorkerView { activation_result: Some(result), ..self@ }),
    {
        FakeWorkerClient { activation_result: Some(result), ..self }
    }

    pub fn with_validation(self, result: Result<ValidationOutcome, AuthError>) -> (r: Self)
        ensures
            r@ == (FakeWorkerView { validation_result: Some(result), ..self@ }),
    {
        FakeWorkerClient { validation_result: Some(result), ..self }
    }

    pub fn with_reset_request(self, result: Result<DeviceResetStatus, AuthError>) -> (r: Self)
        ensures
            r@ == (FakeWorkerView { reset_request_result: Some(result), ..self@ }),
    {
        FakeWorkerClient { reset_request_result: Some(result), ..self }
    }

    pub fn with_reset_status(self, result: Result<DeviceResetStatus, AuthError>) -> (r: Self)
        ensures
            r@ == (FakeWorkerView { reset_status_result: Some(result), ..self@ }),
    {
        FakeWorkerClient { reset_status_result: Some(result), ..self }
    }

    pub fn activation_requests(&self) -> (r: Vec<ActivationRequest>)
        ensures
            r@ == self@.activation_requests,
    {
        clone_vec(&self.activation_requests)
    }

    pub fn reset_requests(&self) -> (r: Vec<DeviceResetRequest>)
        ensures
            r@ == self@.reset_requests,
    {
        clone_vec(&self.reset_requests)
    }
}

impl WorkerClient for FakeWorkerClient {
    closed spec fn received(&self) -> WorkerRequests {
        WorkerRequests {
            activations: self.activation_requests,
            validations: self.validation_requests,
            reset_requests: self.reset_requests,
            status_queries: self.reset_status_requests,
        }
    }

    open spec fn may_answer_activation(
        &self,
        request: ActivationRequest,
        answer: Result<ActivationOutcome, AuthError>,
    ) -> bool {
        answer == scripted(self@.activation_result)
    }

    open spec fn may_answer_validation(
        &self,
        token: AccessToken,
        answer: Result<ValidationOutcome, AuthError>,
    ) -> bool {
        answer == scripted(self@.validation_result)
    }

    open spec fn may_answer_reset_request(
        &self,
        request: DeviceResetRequest,
        answer: Result<DeviceResetStatus, AuthError>,
    ) -> bool {
        answer == scripted(self@.reset_request_result)
    }

    open spec fn may_answer_status(
        &self,
        request_id: ResetRequestId,
        answer: Result<DeviceResetStatus, AuthError>,
    ) -> bool {
        answer == scripted(self@.reset_status_result)
    }

    fn activate(&mut self, request: ActivationRequest) -> (r: Result<ActivationOutcome, AuthError>)
        ensures
            r == scripted(old(self)@.activation_result),
            final(self)@ == (FakeWorkerView { activation_requests: final(self)@.activation_requests, ..old(self)@ }),
            final(self)@.activation_requests == old(self)@.activation_requests.push(
                request,
            ),
    {
        self.activation_requests.push(request);
        match &self.activation_result {
            Some(r) => clone_result(r),
            None => Err(AuthError::WorkerUnreachable),
        }
    }

    fn validate_session(&mut self, token: AccessToken) -> (r: Result<ValidationOutcome, AuthError>)
        ensures
            r == scripted(old(self)@.validation_result),
            final(self)@ == (FakeWorkerView { validation_requests: final(self)@.validation_requests, ..old(self)@ }),
            final(self)@.validation_requests == old(self)@.validation_requests.push(token),
    {
        self.validation_requests.push(token);
        match &self.validation_result {
            Some(r) => clone_result(r),
            None => Err(AuthError::WorkerUnreachable),
        }
    }

    fn request_device_reset(&mut self, request: DeviceResetRequest) -> (r: Result<
        DeviceResetStatus,
        AuthError,
    >)
        ensures
            r == scripted(old(self)@.reset_request_result),
            final(self)@ == (FakeWorkerView { reset_requests: final(self)@.reset_requests, ..old(self)@ }),
            final(self)@.reset_requests == old(self)@.reset_requests.push(request),
    {
        self.reset_requests.push(request);
        match &self.reset_request_result {
            Some(r) => clone_result(r),
            None => Err(AuthError::WorkerUnreachable),
        }
    }

    fn get_device_reset_status(&mut self, request_id: ResetRequestId) -> (r: Result<
        DeviceResetStatus,
        AuthError,
    >)
        ensures
            r == scripted(old(self)@.reset_status_result),
            final(self)@ == (FakeWorkerView { reset_status_requests: final(self)@.reset_status_requests, ..old(self)@ }),
            final(self)@.reset_status_requests == old(self)@.reset_status_requests.push(
                request_id,
            ),
    {
        self.reset_status_requests.push(request_id);
        match &self.reset_status_result {
            Some(r) => clone_result(r),
            None => Err(AuthError::WorkerUnreachable),
        }
    }
}

/// The licensing service over in-memory stores, the fake device, a clock
/// fixed at 10 ms and the given scripted worker, for app version `1.0.0`.
pub struct TestService {
    pub service: AuthService<
        FakeWorkerClient,
        InMemorySecretStore,
        InMemoryLocalStateStore,
        FakeDeviceIdentityProvider,
        FixedClock,
    >,
}

impl TestService {
    pub fn new(worker: FakeWorkerClient) -> (r: Self)
        ensures
            r.service.worker_of() == worker,
            r.service.secrets_view() == (SecretsView {
                license_key: None,
                access_token: None,
                device_keypair: None,
            }),
            r.service.local_view() == (LocalStateView {
                session_state: SessionState::Unauthenticated,
                reset_status: None,
            }),
            r.service.clock_of().0 == 10,
            r.service.ports_never_fail(),
            r.service.app_version_of() == "1.0.0"@,
            r.service.identity_of().keypair_of().public_view()@ == "public"@,
            r.service.identity_of().keypair_of().private_view() == "private"@,
            r.service.identity_of().fingerprint_of().platform@ == "linux"@,
            r.service.identity_of().fingerprint_of().os@ == "linux"@,
            r.service.identity_of().fingerprint_of().arch@ == "x86_64"@,
            r.service.identity_of().fingerprint_of().hostname_hash matches Some(h) && h@
                == "host-hash"@,
    {
        let secrets = InMemorySecretStore::default();
        let state = InMemoryLocalStateStore::default();
        let service = AuthService::new(
            worker,
            secrets,
            state,
            FakeDeviceIdentityProvider::default(),
            FixedClock(10),
            "1.0.0",
        );
        TestService { service }
    }
}

} // verus!
