//! The client licensing service: activation, session validation and device
//! reset, over the worker and the stores.

use super::domain::{
    masked_form, ActivationOutcome, ActivationRequest, AuthError, BoundDeviceSummary, DeviceFingerprint,
    DeviceKeyPair, DevicePublicKey, DeviceResetRequest, LicenseKey, MaskedLicenseKey,
    PurchaseEmail, ResetRequestId, ValidationOutcome,
};
use super::state::{clone_masked, masked_of, state_after_reset, DeviceResetStatus, SessionState};
use super::traits::{
    is_store_error, logged_activation, logged_reset_request, logged_status_query,
    logged_validation, same_requests, Clock, DeviceIdentityProvider, LocalStateStore,
    LocalStateView, SecretStore, SecretsView, WorkerClient, WorkerRequests,
};
use vstd::prelude::*;

verus! {

/// The secrets once the session's license key and access token are forgotten.
pub open spec fn cleared(s: SecretsView) -> SecretsView {
    SecretsView { license_key: None, access_token: None, device_keypair: s.device_keypair }
}

/// The local state with a new session state.
pub open spec fn with_session(l: LocalStateView, s: SessionState) -> LocalStateView {
    LocalStateView { session_state: s, reset_status: l.reset_status }
}

/// The texts of an optional masked key.
pub open spec fn masked_text(m: Option<MaskedLicenseKey>) -> Option<Seq<char>> {
    match m {
        Some(k) => Some(k@),
        None => None,
    }
}

/// `public_key` is the public half of a key pair the device may hand out.
pub open spec fn device_public_key_of<I: DeviceIdentityProvider>(
    identity: I,
    public_key: DevicePublicKey,
) -> bool {
    exists|k: DeviceKeyPair| #[trigger] identity.gives_keypair(k) && k.public_view() == public_key
}

/// `keypair` is stored and `public_key` is its public half.
pub open spec fn stored_keypair_has(keypair: Option<DeviceKeyPair>, public_key: DevicePublicKey) -> bool {
    match keypair {
        Some(k) => k.public_view() == public_key,
        None => false,
    }
}

/// The activation request the service sends for `license_key`: the device's
/// public key and fingerprint, the app version and a clock reading.
pub open spec fn is_activation_request_for<I: DeviceIdentityProvider, C: Clock>(
    request: ActivationRequest,
    license_key: LicenseKey,
    identity: I,
    clock: C,
    app_version: Seq<char>,
) -> bool {
    &&& request.license_key == license_key
    &&& device_public_key_of(identity, request.device_public_key)
    &&& identity.gives_fingerprint(request.fingerprint)
    &&& request.app_version@ == app_version
    &&& clock.may_read(request.timestamp_ms)
}

/// The worker was handed one activation request, the one
/// [`is_activation_request_for`] describes.
pub open spec fn activation_sent<I: DeviceIdentityProvider, C: Clock>(
    before: WorkerRequests,
    after: WorkerRequests,
    license_key: LicenseKey,
    identity: I,
    clock: C,
    app_version: Seq<char>,
) -> bool {
    &&& after.activations@.len() > 0
    &&& logged_activation(before, after, after.activations@.last())
    &&& is_activation_request_for(after.activations@.last(), license_key, identity, clock, app_version)
}

/// The masked key a reset request carries: the stored license key's masked
/// form, else the one the session state remembers.
pub open spec fn reset_masked(license_key: Option<LicenseKey>, state: SessionState) -> Option<Seq<char>> {
    match license_key {
        Some(k) => Some(masked_form(k@)),
        None => masked_text(masked_of(state)),
    }
}

/// The reset request built from its parts: the service's own decision,
/// refused when neither a license key nor a masked key is known.
pub open spec fn is_reset_request_of(
    request: DeviceResetRequest,
    license_key: Option<LicenseKey>,
    masked: Option<Seq<char>>,
    purchaser_email: PurchaseEmail,
    receipt_reference: Option<String>,
    app_version: Seq<char>,
) -> bool {
    &&& request.license_key == license_key
    &&& masked_text(request.masked_license_key) == masked
    &&& request.purchaser_email == purchaser_email
    &&& request.receipt_reference == receipt_reference
    &&& request.app_version@ == app_version
}

/// The worker was handed one reset request: the stored license key, the
/// masked key of [`reset_masked`], the purchaser's email and receipt, the
/// device's public key and fingerprint, the app version and a clock reading.
pub open spec fn reset_request_sent<I: DeviceIdentityProvider, C: Clock>(
    before: WorkerRequests,
    after: WorkerRequests,
    license_key: Option<LicenseKey>,
    masked: Option<Seq<char>>,
    purchaser_email: PurchaseEmail,
    receipt_reference: Option<String>,
    identity: I,
    clock: C,
    app_version: Seq<char>,
) -> bool {
    let request = after.reset_requests@.last();
    &&& after.reset_requests@.len() > 0
    &&& logged_reset_request(before, after, request)
    &&& is_reset_request_of(request, license_key, masked, purchaser_email, receipt_reference, app_version)
    &&& device_public_key_of(identity, request.device_public_key)
    &&& identity.gives_fingerprint(request.fingerprint)
    &&& clock.may_read(request.timestamp_ms)
}

/// What validating the session makes of the worker's answer: an error is
/// passed on, an active session is licensed, any other answer requires
/// re-authentication with the masked key the session state remembers.
pub open spec fn validation_result(
    answer: Result<ValidationOutcome, AuthError>,
    state: SessionState,
) -> Result<SessionState, AuthError> {
    match answer {
        Err(e) => Err(e),
        Ok(ValidationOutcome::Active { masked_license_key, bound_device, token_expires_at_ms }) => Ok(
            SessionState::Licensed { masked_license_key, bound_device, token_expires_at_ms },
        ),
        Ok(_) => Ok(SessionState::ReauthRequired { masked_license_key: masked_of(state) }),
    }
}

/// The secrets after validation: an answer other than an error or an active
/// session forgets the license key and the access token.
pub open spec fn validation_secrets(
    answer: Result<ValidationOutcome, AuthError>,
    s: SecretsView,
) -> SecretsView {
    match answer {
        Err(_) => s,
        Ok(ValidationOutcome::Active { .. }) => s,
        Ok(_) => cleared(s),
    }
}

/// The local state after validation: the new session state, unless the
/// worker answered with an error.
pub open spec fn validation_local(
    answer: Result<ValidationOutcome, AuthError>,
    l: LocalStateView,
) -> LocalStateView {
    match validation_result(answer, l.session_state) {
        Ok(s) => with_session(l, s),
        Err(_) => l,
    }
}

/// What the service makes of the worker's status answer: an error is passed
/// on, a status for an unknown request is an error, any other status is
/// returned.
pub open spec fn status_result(answer: Result<DeviceResetStatus, AuthError>) -> Result<
    DeviceResetStatus,
    AuthError,
> {
    match answer {
        Err(e) => Err(e),
        Ok(st) => if st is NotFound {
            Err(AuthError::ResetRequestNotFound)
        } else {
            Ok(st)
        },
    }
}

/// The local state after a reset status for a known request: the matching
/// reset state and the status.
pub open spec fn with_reset_status(l: LocalStateView, st: DeviceResetStatus) -> LocalStateView {
    LocalStateView {
        session_state: state_after_reset(st, masked_of(l.session_state))->Ok_0,
        reset_status: Some(st),
    }
}

/// The local state after the worker answers a new reset request: an error
/// changes nothing, a not-found status is saved alone, any other status is
/// saved with its reset state.
pub open spec fn reset_request_local(
    answer: Result<DeviceResetStatus, AuthError>,
    l: LocalStateView,
) -> LocalStateView {
    match answer {
        Err(_) => l,
        Ok(st) => if st is NotFound {
            LocalStateView { reset_status: Some(st), ..l }
        } else {
            with_reset_status(l, st)
        },
    }
}

/// The local state after the worker answers a status query: only a status
/// for a known request is saved, with its reset state.
pub open spec fn status_local(answer: Result<DeviceResetStatus, AuthError>, l: LocalStateView) -> LocalStateView {
    match answer {
        Ok(st) => if st is NotFound {
            l
        } else {
            with_reset_status(l, st)
        },
        Err(_) => l,
    }
}

/// The secrets after a status query: an approval forgets the license key and
/// the access token.
pub open spec fn status_secrets(answer: Result<DeviceResetStatus, AuthError>, s: SecretsView) -> SecretsView {
    match answer {
        Ok(DeviceResetStatus::Approved { .. }) => cleared(s),
        _ => s,
    }
}

/// Builds a reset request; without a license key or a masked key there is
/// nothing to reset and the request is refused.
pub fn build_reset_request(
    license_key: Option<LicenseKey>,
    masked_license_key: Option<MaskedLicenseKey>,
    purchaser_email: PurchaseEmail,
    device_public_key: DevicePublicKey,
    fingerprint: DeviceFingerprint,
    app_version: String,
    timestamp_ms: i64,
    receipt_reference: Option<String>,
) -> (r: Result<DeviceResetRequest, AuthError>)
    ensures
        r is Err <==> license_key is None && masked_license_key is None,
        r matches Err(e) ==> e == AuthError::InvalidResetRequest,
        r matches Ok(q) ==> q == (DeviceResetRequest {
            license_key,
            masked_license_key,
            purchaser_email,
            device_public_key,
            fingerprint,
            app_version,
            timestamp_ms,
            receipt_reference,
        }),
{
    if license_key.is_none() && masked_license_key.is_none() {
        return Err(AuthError::InvalidResetRequest);
    }
    Ok(
        DeviceResetRequest {
            license_key,
            masked_license_key,
            purchaser_email,
            device_public_key,
            fingerprint,
            app_version,
            timestamp_ms,
            receipt_reference,
        },
    )
}

pub struct AuthService<W, S, L, I, C> {
    worker: W,
    secrets: S,
    state: L,
    identity: I,
    clock: C,
    app_version: String,
}

/// The masked license key that a session state remembers.
pub fn masked_from_state(state: &SessionState) -> (r: Option<MaskedLicenseKey>)
    ensures
        r == masked_of(*state),
{
    match state {
        SessionState::Unauthenticated => None,
        SessionState::Licensed { masked_license_key, .. } => Some(masked_license_key.clone()),
        SessionState::ReauthRequired { masked_license_key } => clone_masked(masked_license_key),
        SessionState::ResetPending { masked_license_key, .. } => clone_masked(masked_license_key),
        SessionState::ResetApprovedUnbound { masked_license_key, .. } => clone_masked(
            masked_license_key,
        ),
        SessionState::ResetRejected { masked_license_key, .. } => clone_masked(masked_license_key),
        SessionState::ResetExpired { masked_license_key, .. } => clone_masked(masked_license_key),
    }
}

impl<
    W: WorkerClient,
    S: SecretStore,
    L: LocalStateStore,
    I: DeviceIdentityProvider,
    C: Clock,
> AuthService<W, S, L, I, C> {
    pub closed spec fn worker_of(&self) -> W {
        self.worker
    }

    pub closed spec fn secrets_of(&self) -> S {
        self.secrets
    }

    pub closed spec fn state_of(&self) -> L {
        self.state
    }

    pub closed spec fn identity_of(&self) -> I {
        self.identity
    }

    pub closed spec fn clock_of(&self) -> C {
        self.clock
    }

    pub closed spec fn app_version_of(&self) -> Seq<char> {
        self.app_version@
    }

    /// What the secret store holds.
    pub open spec fn secrets_view(&self) -> SecretsView {
        self.secrets_of().secrets()
    }

    /// What the local state store holds.
    pub open spec fn local_view(&self) -> LocalStateView {
        self.state_of().local()
    }

    /// The secret store, the local state store and the device never fail.
    pub open spec fn ports_never_fail(&self) -> bool {
        &&& self.secrets_of().never_fails()
        &&& self.state_of().never_fails()
        &&& self.identity_of().never_fails()
    }

    /// Both stores never fail.
    pub open spec fn stores_never_fail(&self) -> bool {
        self.secrets_of().never_fails() && self.state_of().never_fails()
    }

    pub fn new(worker: W, secrets: S, state: L, identity: I, clock: C, app_version: &str) -> (r:
        Self)
        ensures
            r.worker_of() == worker,
            r.secrets_of() == secrets,
            r.state_of() == state,
            r.identity_of() == identity,
            r.clock_of() == clock,
            r.app_version_of() == app_version@,
    {
        AuthService {
            worker,
            secrets,
            state,
            identity,
            clock,
            app_version: String::from_str(app_version),
        }
    }

    pub fn worker(&self) -> (r: &W)
        ensures
            *r == self.worker_of(),
    {
        &self.worker
    }

    pub fn secrets(&self) -> (r: &S)
        ensures
            *r == self.secrets_of(),
    {
        &self.secrets
    }

    /// The secret store, for a host that seeds or inspects it directly.
    pub fn secrets_mut(&mut self) -> (r: &mut S)
        ensures
            *r == old(self).secrets_of(),
            final(self).secrets_of() == *final(r),
            final(self).worker_of() == old(self).worker_of(),
            final(self).state_of() == old(self).state_of(),
            final(self).identity_of() == old(self).identity_of(),
            final(self).clock_of() == old(self).clock_of(),
            final(self).app_version_of() == old(self).app_version_of(),
    {
        &mut self.secrets
    }

    pub fn state(&self) -> (r: &L)
        ensures
            *r == self.state_of(),
    {
        &self.state
    }

    /// Records a successful activation: the key pair, license key and access
    /// token go to the secret store, the licensed state to the local store.
    pub fn apply_activation(
        &mut self,
        keypair: DeviceKeyPair,
        license_key: LicenseKey,
        outcome: ActivationOutcome,
    ) -> (r: Result<ActivationOutcome, AuthError>)
        ensures
            final(self).stores_never_fail() == old(self).stores_never_fail(),
            old(self).stores_never_fail() ==> r is Ok,
            final(self).worker_of() == old(self).worker_of(),
            final(self).identity_of() == old(self).identity_of(),
            r is Ok ==> r == Ok::<ActivationOutcome, AuthError>(outcome),
            r is Ok ==> final(self).secrets_view() == (SecretsView {
                license_key: Some(license_key),
                access_token: Some(outcome.access_token),
                device_keypair: Some(keypair),
            }),
            r is Ok ==> final(self).local_view() == with_session(
                old(self).local_view(),
                SessionState::Licensed {
                    masked_license_key: outcome.masked_license_key,
                    bound_device: outcome.bound_device,
                    token_expires_at_ms: outcome.token_expires_at_ms,
                },
            ),
            r matches Err(e) ==> is_store_error(e),
    {
        self.secrets.put_device_keypair(keypair)?;
        self.secrets.put_license_key(license_key)?;
        self.secrets.put_access_token(outcome.access_token.clone())?;
        self.state.save_session_state(
            SessionState::after_activation(
                outcome.masked_license_key.clone(),
                outcome.bound_device.clone(),
                outcome.token_expires_at_ms,
            ),
        )?;
        Ok(outcome)
    }

    pub fn activate_license(&mut self, license_key: LicenseKey) -> (r: Result<
        ActivationOutcome,
        AuthError,
    >)
        ensures
            final(self).ports_never_fail() == old(self).ports_never_fail(),
            old(self).ports_never_fail() ==> activation_sent(
                old(self).worker_of().received(),
                final(self).worker_of().received(),
                license_key,
                old(self).identity_of(),
                old(self).clock_of(),
                old(self).app_version_of(),
            ),
            old(self).ports_never_fail() ==> old(self).worker_of().may_answer_activation(
                final(self).worker_of().received().activations@.last(),
                r,
            ),
            old(self).ports_never_fail() && r is Err ==> final(self).secrets_view() == old(self).secrets_view() && final(self).local_view() == old(self).local_view(),
            same_requests(old(self).worker_of().received(), final(self).worker_of().received())
                || activation_sent(
                old(self).worker_of().received(),
                final(self).worker_of().received(),
                license_key,
                old(self).identity_of(),
                old(self).clock_of(),
                old(self).app_version_of(),
            ),
            r is Ok ==> activation_sent(
                old(self).worker_of().received(),
                final(self).worker_of().received(),
                license_key,
                old(self).identity_of(),
                old(self).clock_of(),
                old(self).app_version_of(),
            ),
            r is Ok ==> stored_keypair_has(
                final(self).secrets_view().device_keypair,
                final(self).worker_of().received().activations@.last().device_public_key,
            ),
            r matches Ok(o) ==> {
                &&& final(self).secrets_view().license_key == Some(license_key)
                &&& final(self).secrets_view().access_token == Some(o.access_token)
                &&& final(self).secrets_view().device_keypair is Some
                &&& final(self).local_view() == with_session(
                    old(self).local_view(),
                    SessionState::Licensed {
                        masked_license_key: o.masked_license_key,
                        bound_device: o.bound_device,
                        token_expires_at_ms: o.token_expires_at_ms,
                    },
                )
            },
            r matches Err(e) && !is_store_error(e) ==> final(self).secrets_view() == old(self).secrets_view() && final(self).local_view() == old(self).local_view(),
    {
        let ghost identity0 = self.identity;
        let keypair = match self.identity.get_or_create_keypair() {
            Ok(k) => k,
            Err(e) => {
                return Err(e);
            },
        };
        let fingerprint = match self.identity.collect_fingerprint() {
            Ok(f) => f,
            Err(e) => {
                return Err(e);
            },
        };
        let request = ActivationRequest {
            license_key: license_key.clone(),
            device_public_key: keypair.public_key().clone(),
            fingerprint,
            app_version: self.app_version.clone(),
            timestamp_ms: self.clock.now_ms(),
        };
        proof {
            assert(identity0.gives_keypair(keypair) && keypair.public_view() == request.device_public_key);
            assert(identity0.gives_fingerprint(request.fingerprint));
        }
        let ghost before = self.worker.received();
        let outcome = self.worker.activate(request);
        proof {
            assert(self.worker.received().activations@.last() == request);
        }
        match outcome {
            Ok(o) => self.apply_activation(keypair, license_key, o),
            Err(e) => Err(e),
        }
    }

    /// Records what the worker said of the session's access token.
    pub fn apply_validation(&mut self, outcome: Result<ValidationOutcome, AuthError>) -> (r:
        Result<SessionState, AuthError>)
        ensures
            final(self).stores_never_fail() == old(self).stores_never_fail(),
            old(self).stores_never_fail() && outcome is Ok ==> r is Ok,
            final(self).worker_of() == old(self).worker_of(),
            final(self).identity_of() == old(self).identity_of(),
            outcome matches Err(e) ==> r == Err::<SessionState, AuthError>(e) && final(self).secrets_view() == old(self).secrets_view() && final(self).local_view() == old(self).local_view(),
            outcome matches Ok(ValidationOutcome::Active {
                masked_license_key,
                bound_device,
                token_expires_at_ms,
            }) ==> {
                &&& final(self).secrets_view() == old(self).secrets_view()
                &&& r is Ok ==> {
                    let s = SessionState::Licensed {
                        masked_license_key,
                        bound_device,
                        token_expires_at_ms,
                    };
                    &&& r == Ok::<SessionState, AuthError>(s)
                    &&& final(self).local_view() == with_session(old(self).local_view(), s)
                }
            },
            outcome matches Ok(v) ==> (!(v is Active) && r is Ok ==> {
                let s = SessionState::ReauthRequired {
                    masked_license_key: masked_of(old(self).local_view().session_state),
                };
                &&& r == Ok::<SessionState, AuthError>(s)
                &&& final(self).secrets_view() == cleared(old(self).secrets_view())
                &&& final(self).local_view() == with_session(old(self).local_view(), s)
            }),
            r matches Err(e) ==> (outcome is Ok ==> is_store_error(e)),
    {
        match outcome {
            Ok(ValidationOutcome::Active { masked_license_key, bound_device, token_expires_at_ms },
            ) => {
                let next = SessionState::after_activation(
                    masked_license_key,
                    bound_device,
                    token_expires_at_ms,
                );
                self.state.save_session_state(next.clone())?;
                Ok(next)
            },
            Ok(_) => {
                self.secrets.clear_session_secrets()?;
                let current = self.state.load_session_state()?;
                let next = SessionState::require_reauth(masked_from_state(&current));
                self.state.save_session_state(next.clone())?;
                Ok(next)
            },
            Err(err) => Err(err),
        }
    }

    pub fn validate_session(&mut self) -> (r: Result<SessionState, AuthError>)
        ensures
            final(self).ports_never_fail() == old(self).ports_never_fail(),
            old(self).ports_never_fail() && old(self).secrets_view().access_token is None ==> {
                let s = SessionState::ReauthRequired {
                    masked_license_key: masked_of(old(self).local_view().session_state),
                };
                &&& r == Ok::<SessionState, AuthError>(s)
                &&& final(self).local_view() == with_session(old(self).local_view(), s)
                &&& final(self).secrets_view() == old(self).secrets_view()
            },
            old(self).secrets_view().access_token matches Some(t) ==> (old(self).ports_never_fail()
                ==> {
                &&& logged_validation(
                    old(self).worker_of().received(),
                    final(self).worker_of().received(),
                    t,
                )
                &&& exists|a: Result<ValidationOutcome, AuthError>| #[trigger]
                    old(self).worker_of().may_answer_validation(t, a) && r == validation_result(
                        a,
                        old(self).local_view().session_state,
                    ) && final(self).secrets_view() == validation_secrets(
                        a,
                        old(self).secrets_view(),
                    ) && final(self).local_view() == validation_local(a, old(self).local_view())
            }),
            old(self).secrets_view().access_token is None ==> final(self).worker_of() == old(self).worker_of(),
            old(self).secrets_view().access_token matches Some(t) ==> (same_requests(
                old(self).worker_of().received(),
                final(self).worker_of().received(),
            ) || logged_validation(
                old(self).worker_of().received(),
                final(self).worker_of().received(),
                t,
            )),
            old(self).secrets_view().access_token matches Some(t) ==> (r is Ok ==> logged_validation(
                old(self).worker_of().received(),
                final(self).worker_of().received(),
                t,
            )),
            r matches Ok(s) ==> final(self).local_view() == with_session(
                old(self).local_view(),
                s,
            ),
            r matches Ok(s) ==> (old(self).secrets_view().access_token is None ==> {
                &&& s == (SessionState::ReauthRequired {
                    masked_license_key: masked_of(old(self).local_view().session_state),
                })
                &&& final(self).secrets_view() == old(self).secrets_view()
            }),
            r matches Ok(s) ==> (old(self).secrets_view().access_token is Some ==> {
                ||| {
                    &&& s is Licensed
                    &&& final(self).secrets_view() == old(self).secrets_view()
                }
                ||| {
                    &&& s == (SessionState::ReauthRequired {
                        masked_license_key: masked_of(old(self).local_view().session_state),
                    })
                    &&& final(self).secrets_view() == cleared(old(self).secrets_view())
                }
            }),
            r matches Err(e) && !is_store_error(e) ==> final(self).secrets_view() == old(self).secrets_view() && final(self).local_view() == old(self).local_view(),
    {
        let token = match self.secrets.get_access_token() {
            Ok(t) => t,
            Err(e) => {
                return Err(e);
            },
        };
        match token {
            None => {
                let current = match self.state.load_session_state() {
                    Ok(c) => c,
                    Err(e) => {
                        return Err(e);
                    },
                };
                let masked = masked_from_state(&current);
                let reauth = SessionState::require_reauth(masked);
                match self.state.save_session_state(reauth.clone()) {
                    Ok(()) => Ok(reauth),
                    Err(e) => Err(e),
                }
            },
            Some(token) => {
                let ghost t = token;
                let outcome = self.worker.validate_session(token);
                let ghost a = outcome;
                let ghost w0 = old(self).worker_of();
                let r = self.apply_validation(outcome);
                proof {
                    if old(self).ports_never_fail() {
                        assert(w0.may_answer_validation(t, a));
                        assert(r == validation_result(a, old(self).local_view().session_state));
                    }
                }
                r
            },
        }
    }

    /// Records the status the worker gave a new reset request.
    pub fn apply_reset_request(&mut self, status: DeviceResetStatus) -> (r: Result<
        DeviceResetStatus,
        AuthError,
    >)
        ensures
            final(self).stores_never_fail() == old(self).stores_never_fail(),
            old(self).stores_never_fail() ==> r == status_result(Ok(status)) && final(self).local_view()
                == reset_request_local(Ok(status), old(self).local_view()),
            final(self).worker_of() == old(self).worker_of(),
            final(self).identity_of() == old(self).identity_of(),
            final(self).secrets_view() == old(self).secrets_view(),
            r is Ok ==> state_after_reset(
                status,
                masked_of(old(self).local_view().session_state),
            ) is Ok,
            r is Ok ==> r == Ok::<DeviceResetStatus, AuthError>(status) && final(self).local_view()
                == (LocalStateView {
                session_state: state_after_reset(
                    status,
                    masked_of(old(self).local_view().session_state),
                )->Ok_0,
                reset_status: Some(status),
            }),
            r matches Err(e) ==> is_store_error(e) || (e == AuthError::ResetRequestNotFound
                && status is NotFound && final(self).local_view() == (LocalStateView {
                reset_status: Some(status),
                ..old(self).local_view()
            })),
    {
        self.state.save_reset_status(status.clone())?;
        let current = self.state.load_session_state()?;
        let next = SessionState::after_reset_status(&status, masked_from_state(&current))?;
        self.state.save_session_state(next)?;
        Ok(status)
    }

    pub fn request_device_reset(
        &mut self,
        purchaser_email: PurchaseEmail,
        receipt_reference: Option<String>,
    ) -> (r: Result<DeviceResetStatus, AuthError>)
        ensures
            final(self).ports_never_fail() == old(self).ports_never_fail(),
            old(self).ports_never_fail() && old(self).secrets_view().license_key is None && masked_of(
                old(self).local_view().session_state,
            ) is None ==> r == Err::<DeviceResetStatus, AuthError>(AuthError::InvalidResetRequest),
            old(self).ports_never_fail() && !(old(self).secrets_view().license_key is None
                && masked_of(old(self).local_view().session_state) is None) ==> {
                &&& reset_request_sent(
                    old(self).worker_of().received(),
                    final(self).worker_of().received(),
                    old(self).secrets_view().license_key,
                    reset_masked(
                        old(self).secrets_view().license_key,
                        old(self).local_view().session_state,
                    ),
                    purchaser_email,
                    receipt_reference,
                    old(self).identity_of(),
                    old(self).clock_of(),
                    old(self).app_version_of(),
                )
                &&& exists|a: Result<DeviceResetStatus, AuthError>| #[trigger]
                    old(self).worker_of().may_answer_reset_request(
                        final(self).worker_of().received().reset_requests@.last(),
                        a,
                    ) && r == status_result(a) && final(self).local_view() == reset_request_local(
                        a,
                        old(self).local_view(),
                    )
            },
            same_requests(old(self).worker_of().received(), final(self).worker_of().received())
                || reset_request_sent(
                old(self).worker_of().received(),
                final(self).worker_of().received(),
                old(self).secrets_view().license_key,
                reset_masked(
                    old(self).secrets_view().license_key,
                    old(self).local_view().session_state,
                ),
                purchaser_email,
                receipt_reference,
                old(self).identity_of(),
                old(self).clock_of(),
                old(self).app_version_of(),
            ),
            r is Ok ==> reset_request_sent(
                old(self).worker_of().received(),
                final(self).worker_of().received(),
                old(self).secrets_view().license_key,
                reset_masked(
                    old(self).secrets_view().license_key,
                    old(self).local_view().session_state,
                ),
                purchaser_email,
                receipt_reference,
                old(self).identity_of(),
                old(self).clock_of(),
                old(self).app_version_of(),
            ),
            (old(self).secrets_view().license_key is None && masked_of(
                old(self).local_view().session_state,
            ) is None) ==> final(self).worker_of() == old(self).worker_of(),
            final(self).secrets_view() == old(self).secrets_view(),
            (old(self).secrets_view().license_key is None && masked_of(
                old(self).local_view().session_state,
            ) is None) ==> r is Err && final(self).local_view() == old(self).local_view(),
            r matches Ok(st) ==> final(self).local_view() == (LocalStateView {
                session_state: state_after_reset(
                    st,
                    masked_of(old(self).local_view().session_state),
                )->Ok_0,
                reset_status: Some(st),
            }) && state_after_reset(st, masked_of(old(self).local_view().session_state)) is Ok,
            r is Err && !is_store_error(r->Err_0) ==> {
                &&& final(self).local_view().session_state == old(self).local_view().session_state
                &&& final(self).local_view().reset_status == old(self).local_view().reset_status
                    || (r->Err_0 == AuthError::ResetRequestNotFound && final(self).local_view().reset_status is Some && final(self).local_view().reset_status->Some_0 is NotFound)
            },
    {
        let ghost identity0 = self.identity;
        let keypair = match self.identity.get_or_create_keypair() {
            Ok(k) => k,
            Err(e) => {
                return Err(e);
            },
        };
        let fingerprint = match self.identity.collect_fingerprint() {
            Ok(f) => f,
            Err(e) => {
                return Err(e);
            },
        };
        let license_key = match self.secrets.get_license_key() {
            Ok(k) => k,
            Err(e) => {
                return Err(e);
            },
        };
        let masked_license_key = match &license_key {
            Some(key) => Some(key.masked()),
            None => {
                let current = match self.state.load_session_state() {
                    Ok(c) => c,
                    Err(e) => {
                        return Err(e);
                    },
                };
                masked_from_state(&current)
            },
        };
        let device_public_key = keypair.public_key().clone();
        let request = match build_reset_request(
            license_key,
            masked_license_key,
            purchaser_email,
            device_public_key,
            fingerprint,
            self.app_version.clone(),
            self.clock.now_ms(),
            receipt_reference,
        ) {
            Ok(q) => q,
            Err(e) => {
                return Err(e);
            },
        };
        proof {
            assert(identity0.gives_keypair(keypair) && keypair.public_view() == request.device_public_key);
            assert(identity0.gives_fingerprint(request.fingerprint));
        }
        let ghost w0 = self.worker;
        let status = self.worker.request_device_reset(request);
        let ghost a = status;
        proof {
            assert(self.worker.received().reset_requests@.last() == request);
            assert(w0.may_answer_reset_request(request, a));
        }
        let r = match status {
            Ok(st) => self.apply_reset_request(st),
            Err(e) => Err(e),
        };
        proof {
            if old(self).ports_never_fail() {
                assert(r == status_result(a));
                assert(self.local_view() == reset_request_local(a, old(self).local_view()));
                assert(old(self).worker_of().may_answer_reset_request(
                    self.worker_of().received().reset_requests@.last(),
                    a,
                ));
            }
        }
        r
    }

    /// Records the status the worker gave an existing reset request; an
    /// approval forgets the session's secrets.
    pub fn apply_reset_status(&mut self, status: DeviceResetStatus) -> (r: Result<
        DeviceResetStatus,
        AuthError,
    >)
        ensures
            final(self).stores_never_fail() == old(self).stores_never_fail(),
            old(self).stores_never_fail() ==> r == status_result(Ok(status)) && final(self).local_view()
                == status_local(Ok(status), old(self).local_view()) && final(self).secrets_view()
                == status_secrets(Ok(status), old(self).secrets_view()),
            final(self).worker_of() == old(self).worker_of(),
            final(self).identity_of() == old(self).identity_of(),
            status is NotFound ==> r == Err::<DeviceResetStatus, AuthError>(
                AuthError::ResetRequestNotFound,
            ) && final(self).secrets_view() == old(self).secrets_view() && final(self).local_view() == old(self).local_view(),
            r is Ok ==> {
                &&& r == Ok::<DeviceResetStatus, AuthError>(status)
                &&& final(self).local_view() == (LocalStateView {
                    session_state: state_after_reset(
                        status,
                        masked_of(old(self).local_view().session_state),
                    )->Ok_0,
                    reset_status: Some(status),
                })
                &&& status is Approved ==> final(self).secrets_view() == cleared(
                    old(self).secrets_view(),
                )
                &&& !(status is Approved) ==> final(self).secrets_view() == old(self).secrets_view()
            },
            r matches Err(e) ==> (!(status is NotFound) ==> is_store_error(e)),
    {
        if let DeviceResetStatus::NotFound { .. } = status {
            return Err(AuthError::ResetRequestNotFound);
        }
        self.state.save_reset_status(status.clone())?;
        let current = self.state.load_session_state()?;
        let next = SessionState::after_reset_status(&status, masked_from_state(&current))?;
        if let DeviceResetStatus::Approved { .. } = status {
            self.secrets.clear_session_secrets()?;
        }
        self.state.save_session_state(next)?;
        Ok(status)
    }

    pub fn get_device_reset_status(&mut self, request_id: ResetRequestId) -> (r: Result<
        DeviceResetStatus,
        AuthError,
    >)
        ensures
            logged_status_query(
                old(self).worker_of().received(),
                final(self).worker_of().received(),
                request_id,
            ),
            r matches Ok(st) ==> {
                &&& !(st is NotFound)
                &&& final(self).local_view() == (LocalStateView {
                    session_state: state_after_reset(
                        st,
                        masked_of(old(self).local_view().session_state),
                    )->Ok_0,
                    reset_status: Some(st),
                })
                &&& st is Approved ==> final(self).secrets_view() == cleared(
                    old(self).secrets_view(),
                )
                &&& !(st is Approved) ==> final(self).secrets_view() == old(self).secrets_view()
            },
            r matches Err(e) && !is_store_error(e) ==> final(self).secrets_view() == old(self).secrets_view() && final(self).local_view() == old(self).local_view(),
            final(self).ports_never_fail() == old(self).ports_never_fail(),
            old(self).ports_never_fail() ==> exists|a: Result<DeviceResetStatus, AuthError>| #[trigger]
                old(self).worker_of().may_answer_status(request_id, a) && r == status_result(a)
                    && final(self).local_view() == status_local(a, old(self).local_view())
                    && final(self).secrets_view() == status_secrets(a, old(self).secrets_view()),
    {
        let ghost id = request_id;
        let ghost w0 = self.worker;
        let status = self.worker.get_device_reset_status(request_id);
        let ghost a = status;
        let r = match status {
            Ok(st) => self.apply_reset_status(st),
            Err(e) => Err(e),
        };
        proof {
            if old(self).ports_never_fail() {
                assert(w0.may_answer_status(id, a));
                assert(r == status_result(a));
                assert(self.local_view() == status_local(a, old(self).local_view()));
                assert(self.secrets_view() == status_secrets(a, old(self).secrets_view()));
                assert(old(self).worker_of().may_answer_status(id, a));
            }
        }
        r
    }

    pub fn clear_local_session(&mut self) -> (r: Result<(), AuthError>)
        ensures
            r is Ok ==> final(self).secrets_view() == cleared(old(self).secrets_view())
                && final(self).local_view() == with_session(
                old(self).local_view(),
                SessionState::Unauthenticated,
            ),
            r matches Err(e) ==> is_store_error(e),
            final(self).ports_never_fail() == old(self).ports_never_fail(),
            old(self).stores_never_fail() ==> r is Ok,
    {
        self.secrets.clear_session_secrets()?;
        self.state.save_session_state(SessionState::Unauthenticated)
    }

    pub fn get_auth_state(&self) -> (r: Result<SessionState, AuthError>)
        ensures
            self.stores_never_fail() ==> r is Ok,
            r matches Ok(s) ==> s == self.local_view().session_state,
            r matches Err(e) ==> is_store_error(e),
    {
        self.state.load_session_state()
    }
}

/// A licensed session that the worker no longer accepts (an answer that is
/// neither an error nor an active session) is sent to re-authentication with
/// the masked key it was licensed with, and that state still remembers it.
pub proof fn law_reauthentication_keeps_the_masked_key(
    masked_license_key: MaskedLicenseKey,
    bound_device: BoundDeviceSummary,
    token_expires_at_ms: i64,
    answer: ValidationOutcome,
)
    requires
        !(answer is Active),
    ensures
        validation_result(
            Ok(answer),
            SessionState::Licensed { masked_license_key, bound_device, token_expires_at_ms },
        ) == Ok::<SessionState, AuthError>(
            SessionState::ReauthRequired { masked_license_key: Some(masked_license_key) },
        ),
        masked_of(
            validation_result(
                Ok(answer),
                SessionState::Licensed { masked_license_key, bound_device, token_expires_at_ms },
            )->Ok_0,
        ) == Some(masked_license_key),
{
}

/// How validation reads the worker's answer, for any prior state: an error
/// is passed on and changes nothing; an active session becomes a licensed
/// state with the answer's key, device and expiry, keeping the secrets; any
/// other answer forgets the license key and token (never the key pair) and
/// requires re-authentication with the masked key the state remembered.
pub proof fn law_validation_reads_the_answer(
    answer: Result<ValidationOutcome, AuthError>,
    l: LocalStateView,
    s: SecretsView,
)
    ensures
        answer matches Err(e) ==> validation_result(answer, l.session_state) == Err::<
            SessionState,
            AuthError,
        >(e) && validation_secrets(answer, s) == s && validation_local(answer, l) == l,
        answer matches Ok(ValidationOutcome::Active {
            masked_license_key,
            bound_device,
            token_expires_at_ms,
        }) ==> validation_result(answer, l.session_state) == Ok::<SessionState, AuthError>(
            SessionState::Licensed { masked_license_key, bound_device, token_expires_at_ms },
        ) && validation_secrets(answer, s) == s,
        answer matches Ok(v) ==> (!(v is Active) ==> validation_result(answer, l.session_state)
            == Ok::<SessionState, AuthError>(
            SessionState::ReauthRequired { masked_license_key: masked_of(l.session_state) },
        ) && validation_secrets(answer, s).license_key is None && validation_secrets(
            answer,
            s,
        ).access_token is None && validation_secrets(answer, s).device_keypair
            == s.device_keypair),
        answer matches Ok(_) ==> validation_local(answer, l).session_state == validation_result(
            answer,
            l.session_state,
        )->Ok_0 && validation_local(answer, l).reset_status == l.reset_status,
{
}

/// A status answer for a known request is returned unchanged and saved with
/// its reset state; one for an unknown request is refused as not found and
/// saves nothing; only an approval forgets the license key and token.
pub proof fn law_status_answers_are_recorded(
    status: DeviceResetStatus,
    l: LocalStateView,
    s: SecretsView,
)
    ensures
        !(status is NotFound) ==> status_result(Ok(status)) == Ok::<DeviceResetStatus, AuthError>(
            status,
        ) && status_local(Ok(status), l).reset_status == Some(status),
        status is NotFound ==> status_result(Ok(status)) == Err::<DeviceResetStatus, AuthError>(
            AuthError::ResetRequestNotFound,
        ) && status_local(Ok(status), l) == l,
        status is Approved ==> status_secrets(Ok(status), s) == cleared(s),
        !(status is Approved) ==> status_secrets(Ok(status), s) == s,
        !(status is NotFound) ==> reset_request_local(Ok(status), l).reset_status == Some(status)
            && reset_request_local(Ok(status), l).session_state == state_after_reset(
            status,
            masked_of(l.session_state),
        )->Ok_0,
{
}

} // verus!
