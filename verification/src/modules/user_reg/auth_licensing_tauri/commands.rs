//! The six desktop commands and the frontend-safe views they return.

use crate::modules::user_reg::auth_licensing_core::domain::{
    error_code, error_message, masked_form, AuthError, EntitlementStatus, LicenseKey,
    PurchaseEmail, ResetRequestId, ActivationOutcome,
};
use crate::modules::user_reg::auth_licensing_core::service::{cleared, masked_text, AuthService};
use crate::modules::user_reg::auth_licensing_core::state::{
    masked_of, state_request_id, status_request_id, DeviceResetStatus, SessionState,
};
use crate::modules::user_reg::auth_licensing_core::traits::{
    is_store_error, Clock, DeviceIdentityProvider, LocalStateStore, SecretStore, WorkerClient,
};
use crate::modules::user_reg::auth_licensing_core::domain::{normal_email, valid_email};
use crate::cloning::clone_opt_string;
use crate::text::{opt_text, trimmed};
use vstd::prelude::*;

verus! {

/// The state a desktop host keeps for the commands: the licensing service.
pub struct AuthAppState<W, S, L, I, C> {
    pub service: AuthService<W, S, L, I, C>,
}

#[derive(Debug, PartialEq, Eq)]
pub enum AuthStateView {
    Unauthenticated,
    Licensed { masked_license_key: String, device_id: String, token_expires_at_ms: i64 },
    ReauthRequired { masked_license_key: Option<String> },
    ResetPending { request_id: String, masked_license_key: Option<String> },
    ResetApprovedUnbound {
        request_id: String,
        masked_license_key: Option<String>,
        message: String,
    },
    ResetRejected { request_id: String, masked_license_key: Option<String> },
    ResetExpired { request_id: String, masked_license_key: Option<String> },
}

/// The text of an auth-state view.
pub enum AuthStateText {
    Unauthenticated,
    Licensed { masked_license_key: Seq<char>, device_id: Seq<char>, token_expires_at_ms: i64 },
    ReauthRequired { masked_license_key: Option<Seq<char>> },
    ResetPending { request_id: Seq<char>, masked_license_key: Option<Seq<char>> },
    ResetApprovedUnbound {
        request_id: Seq<char>,
        masked_license_key: Option<Seq<char>>,
        message: Seq<char>,
    },
    ResetRejected { request_id: Seq<char>, masked_license_key: Option<Seq<char>> },
    ResetExpired { request_id: Seq<char>, masked_license_key: Option<Seq<char>> },
}

impl View for AuthStateView {
    type V = AuthStateText;

    open spec fn view(&self) -> AuthStateText {
        match self {
            AuthStateView::Unauthenticated => AuthStateText::Unauthenticated,
            AuthStateView::Licensed { masked_license_key, device_id, token_expires_at_ms } =>
                AuthStateText::Licensed {
                masked_license_key: masked_license_key@,
                device_id: device_id@,
                token_expires_at_ms: *token_expires_at_ms,
            },
            AuthStateView::ReauthRequired { masked_license_key } => AuthStateText::ReauthRequired {
                masked_license_key: opt_text(*masked_license_key),
            },
            AuthStateView::ResetPending { request_id, masked_license_key } =>
                AuthStateText::ResetPending {
                request_id: request_id@,
                masked_license_key: opt_text(*masked_license_key),
            },
            AuthStateView::ResetApprovedUnbound { request_id, masked_license_key, message } =>
                AuthStateText::ResetApprovedUnbound {
                request_id: request_id@,
                masked_license_key: opt_text(*masked_license_key),
                message: message@,
            },
            AuthStateView::ResetRejected { request_id, masked_license_key } =>
                AuthStateText::ResetRejected {
                request_id: request_id@,
                masked_license_key: opt_text(*masked_license_key),
            },
            AuthStateView::ResetExpired { request_id, masked_license_key } =>
                AuthStateText::ResetExpired {
                request_id: request_id@,
                masked_license_key: opt_text(*masked_license_key),
            },
        }
    }
}

/// The approval message shown once a device reset is approved.
pub open spec fn approved_text() -> Seq<char> {
    "Device reset approved. You can now use this license key to activate a device."@
}

/// How the frontend sees a session state: masked key, device id and request
/// id as text, and the approval message with an approved reset.
pub open spec fn state_text(s: SessionState) -> AuthStateText {
    match s {
        SessionState::Unauthenticated => AuthStateText::Unauthenticated,
        SessionState::Licensed { masked_license_key, bound_device, token_expires_at_ms } =>
            AuthStateText::Licensed {
            masked_license_key: masked_license_key@,
            device_id: bound_device.device_id@,
            token_expires_at_ms,
        },
        SessionState::ReauthRequired { masked_license_key } => AuthStateText::ReauthRequired {
            masked_license_key: masked_text(masked_license_key),
        },
        SessionState::ResetPending { request_id, masked_license_key } =>
            AuthStateText::ResetPending {
            request_id: request_id@,
            masked_license_key: masked_text(masked_license_key),
        },
        SessionState::ResetApprovedUnbound { request_id, masked_license_key } =>
            AuthStateText::ResetApprovedUnbound {
            request_id: request_id@,
            masked_license_key: masked_text(masked_license_key),
            message: approved_text(),
        },
        SessionState::ResetRejected { request_id, masked_license_key } =>
            AuthStateText::ResetRejected {
            request_id: request_id@,
            masked_license_key: masked_text(masked_license_key),
        },
        SessionState::ResetExpired { request_id, masked_license_key } =>
            AuthStateText::ResetExpired {
            request_id: request_id@,
            masked_license_key: masked_text(masked_license_key),
        },
    }
}

fn masked_string(
    m: Option<crate::modules::user_reg::auth_licensing_core::domain::MaskedLicenseKey>,
) -> (r: Option<String>)
    ensures
        opt_text(r) == masked_text(m),
{
    match m {
        Some(k) => Some(k.to_string()),
        None => None,
    }
}

impl AuthStateView {
    /// The frontend view of a session state.
    pub fn from_state(value: SessionState) -> (r: Self)
        ensures
            r@ == state_text(value),
    {
        match value {
            SessionState::Unauthenticated => AuthStateView::Unauthenticated,
            SessionState::Licensed { masked_license_key, bound_device, token_expires_at_ms } =>
                AuthStateView::Licensed {
                masked_license_key: masked_license_key.to_string(),
                device_id: String::from_str(bound_device.device_id.as_str()),
                token_expires_at_ms,
            },
            SessionState::ReauthRequired { masked_license_key } => AuthStateView::ReauthRequired {
                masked_license_key: masked_string(masked_license_key),
            },
            SessionState::ResetPending { request_id, masked_license_key } =>
                AuthStateView::ResetPending {
                request_id: String::from_str(request_id.as_str()),
                masked_license_key: masked_string(masked_license_key),
            },
            SessionState::ResetApprovedUnbound { request_id, masked_license_key } => {
                let message = String::from_str(DeviceResetStatus::approved_message());
                AuthStateView::ResetApprovedUnbound {
                    request_id: String::from_str(request_id.as_str()),
                    masked_license_key: masked_string(masked_license_key),
                    message,
                }
            },
            SessionState::ResetRejected { request_id, masked_license_key } =>
                AuthStateView::ResetRejected {
                request_id: String::from_str(request_id.as_str()),
                masked_license_key: masked_string(masked_license_key),
            },
            SessionState::ResetExpired { request_id, masked_license_key } =>
                AuthStateView::ResetExpired {
                request_id: String::from_str(request_id.as_str()),
                masked_license_key: masked_string(masked_license_key),
            },
        }
    }
}

#[derive(Debug, PartialEq, Eq)]
pub struct ActivationView {
    pub auth_state: AuthStateView,
    pub masked_license_key: String,
    pub entitlement: String,
}

#[derive(Debug, PartialEq, Eq)]
pub struct SessionView {
    pub auth_state: AuthStateView,
}

#[derive(Debug, Clone, PartialEq, Eq)]
pub struct DeviceResetInput {
    pub purchaser_email: String,
    pub receipt_reference: Option<String>,
}

#[derive(Debug, PartialEq, Eq)]
pub struct DeviceResetView {
    pub request_id: String,
    pub status: String,
    pub message: Option<String>,
    pub auth_state: AuthStateView,
}

#[derive(Debug, Clone, PartialEq, Eq)]
pub struct AuthCommandError {
    pub code: String,
    pub message: String,
}

/// `c` is the command form of the core error `e`: its code and message.
pub open spec fn is_command_error_of(c: AuthCommandError, e: AuthError) -> bool {
    c.code@ == error_code(e) && c.message@ == error_message(e)
}

/// `c` is the command form of some core error.
pub open spec fn is_command_error(c: AuthCommandError) -> bool {
    exists|e: AuthError| #[trigger] is_command_error_of(c, e)
}

/// `c` is the command form of a store error.
pub open spec fn is_store_command_error(c: AuthCommandError) -> bool {
    exists|e: AuthError| #[trigger] is_command_error_of(c, e) && is_store_error(e)
}

impl AuthCommandError {
    /// The command error for a core error: its code and its message.
    pub fn from_error(value: AuthError) -> (r: Self)
        ensures
            r.code@ == error_code(value),
            r.message@ == error_message(value),
    {
        AuthCommandError { code: String::from_str(value.code()), message: value.to_string() }
    }
}

/// The lowercase name of an entitlement, as the frontend shows it.
pub open spec fn entitlement_text(e: EntitlementStatus) -> Seq<char> {
    match e {
        EntitlementStatus::Active => "active"@,
        EntitlementStatus::Disabled => "disabled"@,
        EntitlementStatus::Refunded => "refunded"@,
    }
}

pub fn entitlement_name(e: EntitlementStatus) -> (r: String)
    ensures
        r@ == entitlement_text(e),
{
    match e {
        EntitlementStatus::Active => String::from_str("active"),
        EntitlementStatus::Disabled => String::from_str("disabled"),
        EntitlementStatus::Refunded => String::from_str("refunded"),
    }
}

/// What the frontend sees of an activation: the licensed state, the masked
/// key and the entitlement; never the access token or the license key.
pub fn activation_view(outcome: ActivationOutcome) -> (r: ActivationView)
    ensures
        r.auth_state@ == state_text(
            SessionState::Licensed {
                masked_license_key: outcome.masked_license_key,
                bound_device: outcome.bound_device,
                token_expires_at_ms: outcome.token_expires_at_ms,
            },
        ),
        r.masked_license_key@ == outcome.masked_license_key@,
        r.entitlement@ == entitlement_text(outcome.entitlement),
{
    let masked = outcome.masked_license_key.to_string();
    let auth_state = AuthStateView::from_state(
        SessionState::after_activation(
            outcome.masked_license_key,
            outcome.bound_device,
            outcome.token_expires_at_ms,
        ),
    );
    ActivationView { auth_state, masked_license_key: masked, entitlement: entitlement_name(outcome.entitlement) }
}

/// The name of a reset status.
pub open spec fn status_text(status: DeviceResetStatus) -> Seq<char> {
    match status {
        DeviceResetStatus::Pending { .. } => "pending"@,
        DeviceResetStatus::Approved { .. } => "approved"@,
        DeviceResetStatus::Rejected { .. } => "rejected"@,
        DeviceResetStatus::Expired { .. } => "expired"@,
        DeviceResetStatus::NotFound { .. } => "not_found"@,
    }
}

/// What the frontend sees of a reset: the request id, the status name, the
/// approval message when approved, and the current auth state.
pub fn reset_view_from(status: &DeviceResetStatus, auth_state: AuthStateView) -> (r:
    DeviceResetView)
    ensures
        r.request_id@ == status_request_id(*status)@,
        r.status@ == status_text(*status),
        opt_text(r.message) == (if status is Approved {
            Some(approved_text())
        } else {
            None
        }),
        r.auth_state == auth_state,
{
    let request_id = String::from_str(status.request_id().as_str());
    let (status_text, message): (String, Option<String>) = match status {
        DeviceResetStatus::Pending { .. } => (String::from_str("pending"), None),
        DeviceResetStatus::Approved { .. } => (
            String::from_str("approved"),
            Some(String::from_str(DeviceResetStatus::approved_message())),
        ),
        DeviceResetStatus::Rejected { .. } => (String::from_str("rejected"), None),
        DeviceResetStatus::Expired { .. } => (String::from_str("expired"), None),
        DeviceResetStatus::NotFound { .. } => (String::from_str("not_found"), None),
    };
    DeviceResetView { request_id, status: status_text, message, auth_state }
}

/// The names of the six commands, in registration order.
pub fn command_names() -> (r: Vec<&'static str>)
    ensures
        r@.len() == 6,
        r@[0]@ == "activate_license"@,
        r@[1]@ == "validate_session"@,
        r@[2]@ == "request_device_reset"@,
        r@[3]@ == "get_device_reset_status"@,
        r@[4]@ == "clear_local_session"@,
        r@[5]@ == "get_auth_state"@,
{
    vec![
        "activate_license",
        "validate_session",
        "request_device_reset",
        "get_device_reset_status",
        "clear_local_session",
        "get_auth_state",
    ]
}

pub fn activate_license_with_service<
    W: WorkerClient,
    S: SecretStore,
    L: LocalStateStore,
    I: DeviceIdentityProvider,
    C: Clock,
>(license_key: &str, service: &mut AuthService<W, S, L, I, C>) -> (r: Result<
    ActivationView,
    AuthCommandError,
>)
    ensures
        trimmed(license_key@).len() == 0 ==> (r matches Err(e) && e.code@
            == "invalid_license_key"@) && final(service).secrets_view() == old(service).secrets_view() && final(service).local_view() == old(service).local_view(),
        r matches Ok(v) ==> {
            &&& final(service).local_view().session_state is Licensed
            &&& v.auth_state@ == state_text(final(service).local_view().session_state)
            &&& v.masked_license_key@ == final(service).local_view().session_state->Licensed_masked_license_key@
            &&& final(service).secrets_view().license_key is Some
            &&& final(service).secrets_view().license_key->Some_0@ == trimmed(license_key@)
        },
{
    let key = match LicenseKey::new(license_key) {
        Ok(k) => k,
        Err(e) => {
            return Err(AuthCommandError::from_error(e));
        },
    };
    match service.activate_license(key) {
        Ok(outcome) => Ok(activation_view(outcome)),
        Err(e) => Err(AuthCommandError::from_error(e)),
    }
}

pub fn validate_session_with_service<
    W: WorkerClient,
    S: SecretStore,
    L: LocalStateStore,
    I: DeviceIdentityProvider,
    C: Clock,
>(service: &mut AuthService<W, S, L, I, C>) -> (r: Result<SessionView, AuthCommandError>)
    ensures
        r matches Ok(v) ==> v.auth_state@ == state_text(final(service).local_view().session_state),
        r matches Err(c) ==> is_command_error(c),
        r matches Err(c) && !is_store_command_error(c) ==> final(service).secrets_view() == old(service).secrets_view() && final(service).local_view() == old(service).local_view(),
{
    match service.validate_session() {
        Ok(state) => Ok(SessionView { auth_state: AuthStateView::from_state(state) }),
        Err(e) => {
            let ghost ge = e;
            let c = AuthCommandError::from_error(e);
            assert(is_command_error_of(c, ge));
            Err(c)
        },
    }
}

fn reset_view<
    W: WorkerClient,
    S: SecretStore,
    L: LocalStateStore,
    I: DeviceIdentityProvider,
    C: Clock,
>(status: DeviceResetStatus, service: &AuthService<W, S, L, I, C>) -> (r: Result<
    DeviceResetView,
    AuthCommandError,
>)
    ensures
        r matches Ok(v) ==> {
            &&& v.request_id@ == status_request_id(status)@
            &&& v.status@ == status_text(status)
            &&& v.auth_state@ == state_text(service.local_view().session_state)
        },
        r matches Err(c) ==> is_store_command_error(c),
{
    match service.get_auth_state() {
        Ok(state) => Ok(reset_view_from(&status, AuthStateView::from_state(state))),
        Err(e) => {
            let ghost ge = e;
            let c = AuthCommandError::from_error(e);
            assert(is_command_error_of(c, ge) && is_store_error(ge));
            Err(c)
        },
    }
}

pub fn request_device_reset_with_service<
    W: WorkerClient,
    S: SecretStore,
    L: LocalStateStore,
    I: DeviceIdentityProvider,
    C: Clock,
>(input: DeviceResetInput, service: &mut AuthService<W, S, L, I, C>) -> (r: Result<
    DeviceResetView,
    AuthCommandError,
>)
    ensures
        !valid_email(normal_email(input.purchaser_email@)) ==> (r matches Err(e) && e.code@
            == "invalid_purchase_email"@) && final(service).secrets_view() == old(service).secrets_view() && final(service).local_view() == old(service).local_view(),
        r matches Ok(v) ==> {
            &&& final(service).local_view().reset_status is Some
            &&& v.request_id@ == status_request_id(
                final(service).local_view().reset_status->Some_0,
            )@
            &&& v.status@ == status_text(final(service).local_view().reset_status->Some_0)
            &&& v.auth_state@ == state_text(final(service).local_view().session_state)
        },
{
    let email = match PurchaseEmail::new(input.purchaser_email.as_str()) {
        Ok(e) => e,
        Err(e) => {
            return Err(AuthCommandError::from_error(e));
        },
    };
    let status = match service.request_device_reset(email, input.receipt_reference) {
        Ok(s) => s,
        Err(e) => {
            return Err(AuthCommandError::from_error(e));
        },
    };
    reset_view(status, service)
}

pub fn get_device_reset_status_with_service<
    W: WorkerClient,
    S: SecretStore,
    L: LocalStateStore,
    I: DeviceIdentityProvider,
    C: Clock,
>(request_id: &str, service: &mut AuthService<W, S, L, I, C>) -> (r: Result<
    DeviceResetView,
    AuthCommandError,
>)
    ensures
        trimmed(request_id@).len() == 0 ==> (r matches Err(e) && e.code@
            == "invalid_reset_request"@) && final(service).secrets_view() == old(service).secrets_view() && final(service).local_view() == old(service).local_view(),
        r matches Ok(v) ==> {
            &&& final(service).local_view().reset_status is Some
            &&& v.request_id@ == status_request_id(
                final(service).local_view().reset_status->Some_0,
            )@
            &&& v.status@ == status_text(final(service).local_view().reset_status->Some_0)
            &&& v.auth_state@ == state_text(final(service).local_view().session_state)
        },
{
    let id = match ResetRequestId::new(request_id) {
        Ok(id) => id,
        Err(e) => {
            return Err(AuthCommandError::from_error(e));
        },
    };
    let status = match service.get_device_reset_status(id) {
        Ok(s) => s,
        Err(e) => {
            return Err(AuthCommandError::from_error(e));
        },
    };
    reset_view(status, service)
}

pub fn clear_local_session_with_service<
    W: WorkerClient,
    S: SecretStore,
    L: LocalStateStore,
    I: DeviceIdentityProvider,
    C: Clock,
>(service: &mut AuthService<W, S, L, I, C>) -> (r: Result<(), AuthCommandError>)
    ensures
        r is Ok ==> final(service).secrets_view() == cleared(old(service).secrets_view())
            && final(service).local_view().session_state == SessionState::Unauthenticated,
        r matches Err(c) ==> is_store_command_error(c),
{
    match service.clear_local_session() {
        Ok(()) => Ok(()),
        Err(e) => {
            let ghost ge = e;
            let c = AuthCommandError::from_error(e);
            assert(is_command_error_of(c, ge) && is_store_error(ge));
            Err(c)
        },
    }
}

pub fn get_auth_state_with_service<
    W: WorkerClient,
    S: SecretStore,
    L: LocalStateStore,
    I: DeviceIdentityProvider,
    C: Clock,
>(service: &AuthService<W, S, L, I, C>) -> (r: Result<AuthStateView, AuthCommandError>)
    ensures
        r matches Ok(v) ==> v@ == state_text(service.local_view().session_state),
        r matches Err(c) ==> is_store_command_error(c),
{
    match service.get_auth_state() {
        Ok(state) => Ok(AuthStateView::from_state(state)),
        Err(e) => {
            let ghost ge = e;
            let c = AuthCommandError::from_error(e);
            assert(is_command_error_of(c, ge) && is_store_error(ge));
            Err(c)
        },
    }
}

/// The masked key a view shows, if any.
pub open spec fn shown_masked_key(t: AuthStateText) -> Option<Seq<char>> {
    match t {
        AuthStateText::Unauthenticated => None,
        AuthStateText::Licensed { masked_license_key, .. } => Some(masked_license_key),
        AuthStateText::ReauthRequired { masked_license_key } => masked_license_key,
        AuthStateText::ResetPending { masked_license_key, .. } => masked_license_key,
        AuthStateText::ResetApprovedUnbound { masked_license_key, .. } => masked_license_key,
        AuthStateText::ResetRejected { masked_license_key, .. } => masked_license_key,
        AuthStateText::ResetExpired { masked_license_key, .. } => masked_license_key,
    }
}

/// The reset request a view shows, if any.
pub open spec fn shown_request_id(t: AuthStateText) -> Option<Seq<char>> {
    match t {
        AuthStateText::ResetPending { request_id, .. } => Some(request_id),
        AuthStateText::ResetApprovedUnbound { request_id, .. } => Some(request_id),
        AuthStateText::ResetRejected { request_id, .. } => Some(request_id),
        AuthStateText::ResetExpired { request_id, .. } => Some(request_id),
        _ => None,
    }
}

/// The frontend view of a session state is of the same kind as the state,
/// shows the masked key the state remembers and the reset request it is
/// about, and carries the approval message exactly when a reset was approved.
pub proof fn law_view_shows_the_state(s: SessionState)
    ensures
        (state_text(s) is Unauthenticated) == (s is Unauthenticated),
        (state_text(s) is Licensed) == (s is Licensed),
        (state_text(s) is ReauthRequired) == (s is ReauthRequired),
        (state_text(s) is ResetPending) == (s is ResetPending),
        (state_text(s) is ResetApprovedUnbound) == (s is ResetApprovedUnbound),
        (state_text(s) is ResetRejected) == (s is ResetRejected),
        (state_text(s) is ResetExpired) == (s is ResetExpired),
        shown_masked_key(state_text(s)) == masked_text(masked_of(s)),
        shown_request_id(state_text(s)) == match state_request_id(s) {
            Some(id) => Some(id@),
            None => None::<Seq<char>>,
        },
        state_text(s) is ResetApprovedUnbound ==> state_text(s)->message == approved_text(),
        s matches SessionState::Licensed { bound_device, token_expires_at_ms, .. } ==> state_text(s)
            == (AuthStateText::Licensed {
            masked_license_key: shown_masked_key(state_text(s))->Some_0,
            device_id: bound_device.device_id@,
            token_expires_at_ms,
        }),
{
}

} // verus!
