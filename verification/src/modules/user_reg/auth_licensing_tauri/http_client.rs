//! The licensing worker's wire formats: request bodies (whose `Debug` text
//! never shows secrets), response bodies and their conversion into the core's
//! types, and the mapping of failed responses to errors.

use crate::modules::user_reg::auth_licensing_core::domain::{
    debug_option, debug_quoted, error_code, fingerprint_debug, option_debug, str_debug, AccessToken,
    ActivationOutcome, ActivationRequest, AuthError, BoundDeviceSummary, BoundDeviceView,
    DeviceFingerprint, DeviceId, DevicePublicKey, DeviceResetRequest, EntitlementStatus,
    MaskedLicenseKey, ResetRequestId, ValidationOutcome, ValidationView,
};
use crate::modules::user_reg::auth_licensing_core::state::DeviceResetStatus;
use crate::text::{chars_of, decimal, i64_to_string, opt_text, str_eq, string_from_chars, trimmed};
use vstd::prelude::*;
use vstd::std_specs::convert::FromSpecImpl;

verus! {

/// The error a failed response means by its HTTP status alone.
pub open spec fn status_error_spec(status: u16) -> AuthError {
    if status == 400 {
        AuthError::InvalidResetRequest
    } else if status == 401 || status == 403 {
        AuthError::Unauthorized
    } else if status == 404 {
        AuthError::ResetRequestNotFound
    } else if status == 409 {
        AuthError::DeviceAlreadyBound
    } else if status == 410 {
        AuthError::ReauthRequired
    } else {
        AuthError::WorkerUnreachable
    }
}

pub fn status_error(status: u16) -> (r: AuthError)
    ensures
        r == status_error_spec(status),
{
    if status == 400 {
        AuthError::InvalidResetRequest
    } else if status == 401 || status == 403 {
        AuthError::Unauthorized
    } else if status == 404 {
        AuthError::ResetRequestNotFound
    } else if status == 409 {
        AuthError::DeviceAlreadyBound
    } else if status == 410 {
        AuthError::ReauthRequired
    } else {
        AuthError::WorkerUnreachable
    }
}

/// The error body of a failed worker response.
#[derive(Debug, Clone, PartialEq, Eq)]
pub struct WorkerErrorBody {
    pub code: Option<String>,
}

/// The error a worker error code names, if it names one.
pub open spec fn code_error(code: Seq<char>) -> Option<AuthError> {
    if code == "invalid_license_key"@ {
        Some(AuthError::InvalidLicenseKey)
    } else if code == "invalid_purchase_email"@ {
        Some(AuthError::InvalidPurchaseEmail)
    } else if code == "invalid_device_identity"@ {
        Some(AuthError::InvalidDeviceIdentity)
    } else if code == "invalid_reset_request"@ {
        Some(AuthError::InvalidResetRequest)
    } else if code == "device_already_bound"@ {
        Some(AuthError::DeviceAlreadyBound)
    } else if code == "reauth_required"@ || code == "token_expired"@ || code == "token_revoked"@ {
        Some(AuthError::ReauthRequired)
    } else if code == "reset_request_not_found"@ {
        Some(AuthError::ResetRequestNotFound)
    } else if code == "unauthorized"@ {
        Some(AuthError::Unauthorized)
    } else if code == "worker_unreachable"@ {
        Some(AuthError::WorkerUnreachable)
    } else {
        None
    }
}

impl WorkerErrorBody {
    /// The error a failed response means: its code when the code is known,
    /// else its HTTP status. The worker's message is never kept.
    pub fn into_auth_error(self, fallback_status: u16) -> (r: AuthError)
        ensures
            r == match self.code {
                Some(c) => match code_error(c@) {
                    Some(e) => e,
                    None => status_error_spec(fallback_status),
                },
                None => status_error_spec(fallback_status),
            },
    {
        match &self.code {
            Some(c) => {
                let c = c.as_str();
                if str_eq(c, "invalid_license_key") {
                    AuthError::InvalidLicenseKey
                } else if str_eq(c, "invalid_purchase_email") {
                    AuthError::InvalidPurchaseEmail
                } else if str_eq(c, "invalid_device_identity") {
                    AuthError::InvalidDeviceIdentity
                } else if str_eq(c, "invalid_reset_request") {
                    AuthError::InvalidResetRequest
                } else if str_eq(c, "device_already_bound") {
                    AuthError::DeviceAlreadyBound
                } else if str_eq(c, "reauth_required") || str_eq(c, "token_expired") || str_eq(
                    c,
                    "token_revoked",
                ) {
                    AuthError::ReauthRequired
                } else if str_eq(c, "reset_request_not_found") {
                    AuthError::ResetRequestNotFound
                } else if str_eq(c, "unauthorized") {
                    AuthError::Unauthorized
                } else if str_eq(c, "worker_unreachable") {
                    AuthError::WorkerUnreachable
                } else {
                    status_error(fallback_status)
                }
            },
            None => status_error(fallback_status),
        }
    }
}

/// The error for a response that is not a success: from its error body when
/// it has one, else from its status.
pub fn failed_response_error(status: u16, error_body: Option<WorkerErrorBody>) -> (r: AuthError)
    ensures
        error_body is None ==> r == status_error_spec(status),
        error_body matches Some(b) ==> r == match b.code {
            Some(c) => match code_error(c@) {
                Some(e) => e,
                None => status_error_spec(status),
            },
            None => status_error_spec(status),
        },
{
    match error_body {
        Some(body) => body.into_auth_error(status),
        None => status_error(status),
    }
}

#[derive(Clone, PartialEq, Eq)]
pub struct ActivationRequestBody {
    pub license_key: String,
    pub device_public_key: String,
    pub fingerprint: DeviceFingerprint,
    pub app_version: String,
    pub timestamp_ms: i64,
}

impl ActivationRequestBody {
    pub fn from_request(value: ActivationRequest) -> (r: Self)
        ensures
            r.license_key@ == value.license_key@,
            r.device_public_key@ == value.device_public_key@,
            r.fingerprint == value.fingerprint,
            r.app_version == value.app_version,
            r.timestamp_ms == value.timestamp_ms,
    {
        ActivationRequestBody {
            license_key: String::from_str(value.license_key.expose_secret()),
            device_public_key: String::from_str(value.device_public_key.as_str()),
            fingerprint: value.fingerprint,
            app_version: value.app_version,
            timestamp_ms: value.timestamp_ms,
        }
    }

    /// The `Debug` form: every field but the license key, which is redacted.
    pub fn debug_string(&self) -> (r: String)
        ensures
            r@ == "ActivationRequestBody { license_key: \"<redacted>\", device_public_key: "@
                + debug_quoted(self.device_public_key@) + ", fingerprint: "@ + fingerprint_debug(
                self.fingerprint@,
            ) + ", app_version: "@ + debug_quoted(self.app_version@) + ", timestamp_ms: "@
                + decimal(self.timestamp_ms as int) + " }"@,
    {
        String::from_str("ActivationRequestBody { license_key: \"<redacted>\", device_public_key: ").concat(
            str_debug(self.device_public_key.as_str()).as_str(),
        ).concat(", fingerprint: ").concat(self.fingerprint.debug_string().as_str()).concat(
            ", app_version: ",
        ).concat(str_debug(self.app_version.as_str()).as_str()).concat(", timestamp_ms: ").concat(
            i64_to_string(self.timestamp_ms).as_str(),
        ).concat(" }")
    }
}

#[derive(Clone, PartialEq, Eq)]
pub struct ValidationRequestBody {
    pub access_token: String,
}

impl ValidationRequestBody {
    pub fn from_token(value: AccessToken) -> (r: Self)
        ensures
            r.access_token@ == value@,
    {
        ValidationRequestBody { access_token: String::from_str(value.expose_secret()) }
    }

    /// The `Debug` form, with the token redacted.
    pub fn debug_string(&self) -> (r: String)
        ensures
            r@ == "ValidationRequestBody { access_token: \"<redacted>\" }"@,
    {
        String::from_str("ValidationRequestBody { access_token: \"<redacted>\" }")
    }
}

#[derive(Clone, PartialEq, Eq)]
pub struct DeviceResetRequestBody {
    pub license_key: Option<String>,
    pub masked_license_key: Option<String>,
    pub purchaser_email: String,
    pub device_public_key: String,
    pub fingerprint: DeviceFingerprint,
    pub app_version: String,
    pub timestamp_ms: i64,
    pub receipt_reference: Option<String>,
}

impl DeviceResetRequestBody {
    pub fn from_request(value: DeviceResetRequest) -> (r: Self)
        ensures
            opt_text(r.license_key) == match value.license_key {
                Some(k) => Some(k@),
                None => None,
            },
            opt_text(r.masked_license_key) == match value.masked_license_key {
                Some(m) => Some(m@),
                None => None,
            },
            r.purchaser_email@ == value.purchaser_email@,
            r.device_public_key@ == value.device_public_key@,
            r.fingerprint == value.fingerprint,
            r.app_version == value.app_version,
            r.timestamp_ms == value.timestamp_ms,
            r.receipt_reference == value.receipt_reference,
    {
        DeviceResetRequestBody {
            license_key: match &value.license_key {
                Some(k) => Some(String::from_str(k.expose_secret())),
                None => None,
            },
            masked_license_key: match &value.masked_license_key {
                Some(m) => Some(String::from_str(m.as_str())),
                None => None,
            },
            purchaser_email: String::from_str(value.purchaser_email.as_str()),
            device_public_key: String::from_str(value.device_public_key.as_str()),
            fingerprint: value.fingerprint,
            app_version: value.app_version,
            timestamp_ms: value.timestamp_ms,
            receipt_reference: value.receipt_reference,
        }
    }

    /// The `Debug` form: the license key, when present, is redacted.
    pub fn debug_string(&self) -> (r: String)
        ensures
            r@ == "DeviceResetRequestBody { license_key: "@ + (if self.license_key is Some {
                "Some(\"<redacted>\")"@
            } else {
                "None"@
            }) + ", masked_license_key: "@ + debug_option(opt_text(self.masked_license_key))
                + ", purchaser_email: "@ + debug_quoted(self.purchaser_email@)
                + ", device_public_key: "@ + debug_quoted(self.device_public_key@)
                + ", fingerprint: "@ + fingerprint_debug(self.fingerprint@) + ", app_version: "@
                + debug_quoted(self.app_version@) + ", timestamp_ms: "@ + decimal(
                self.timestamp_ms as int,
            ) + ", receipt_reference: "@ + debug_option(opt_text(self.receipt_reference))
                + " }"@,
    {
        let license = if self.license_key.is_some() {
            String::from_str("Some(\"<redacted>\")")
        } else {
            String::from_str("None")
        };
        String::from_str("DeviceResetRequestBody { license_key: ").concat(license.as_str()).concat(
            ", masked_license_key: ",
        ).concat(option_debug(&self.masked_license_key).as_str()).concat(
            ", purchaser_email: ",
        ).concat(str_debug(self.purchaser_email.as_str()).as_str()).concat(
            ", device_public_key: ",
        ).concat(str_debug(self.device_public_key.as_str()).as_str()).concat(
            ", fingerprint: ",
        ).concat(self.fingerprint.debug_string().as_str()).concat(", app_version: ").concat(
            str_debug(self.app_version.as_str()).as_str(),
        ).concat(", timestamp_ms: ").concat(i64_to_string(self.timestamp_ms).as_str()).concat(
            ", receipt_reference: ",
        ).concat(option_debug(&self.receipt_reference).as_str()).concat(" }")
    }
}

#[derive(Debug, Clone, PartialEq, Eq)]
pub struct BoundDeviceBody {
    pub device_id: String,
    pub public_key: String,
    pub fingerprint: DeviceFingerprint,
}

/// Why a bound-device body is rejected, if it is.
pub open spec fn bound_body_error(b: BoundDeviceBody) -> Option<AuthError> {
    if trimmed(b.device_id@).len() == 0 || trimmed(b.public_key@).len() == 0 {
        Some(AuthError::InvalidDeviceIdentity)
    } else {
        None
    }
}

/// The summary a valid bound-device body converts to.
pub open spec fn bound_body_view(b: BoundDeviceBody) -> BoundDeviceView {
    BoundDeviceView {
        device_id: trimmed(b.device_id@),
        public_key: trimmed(b.public_key@),
        fingerprint: b.fingerprint@,
    }
}

impl BoundDeviceBody {
    pub fn into_summary(self) -> (r: Result<BoundDeviceSummary, AuthError>)
        ensures
            r is Err <==> bound_body_error(self) is Some,
            r matches Err(e) ==> bound_body_error(self) == Some(e),
            r matches Ok(s) ==> s@ == bound_body_view(self),
    {
        let device_id = DeviceId::new(self.device_id.as_str())?;
        let public_key = DevicePublicKey::new(self.public_key.as_str())?;
        Ok(BoundDeviceSummary { device_id, public_key, fingerprint: self.fingerprint })
    }
}

#[derive(Debug, Clone, Copy, PartialEq, Eq, Structural)]
pub enum EntitlementStatusBody {
    Active,
    Disabled,
    Refunded,
}

/// The entitlement a wire entitlement names.
pub open spec fn entitlement_of(v: EntitlementStatusBody) -> EntitlementStatus {
    match v {
        EntitlementStatusBody::Active => EntitlementStatus::Active,
        EntitlementStatusBody::Disabled => EntitlementStatus::Disabled,
        EntitlementStatusBody::Refunded => EntitlementStatus::Refunded,
    }
}

impl From<EntitlementStatusBody> for EntitlementStatus {
    fn from(value: EntitlementStatusBody) -> (r: Self) {
        match value {
            EntitlementStatusBody::Active => EntitlementStatus::Active,
            EntitlementStatusBody::Disabled => EntitlementStatus::Disabled,
            EntitlementStatusBody::Refunded => EntitlementStatus::Refunded,
        }
    }
}

impl FromSpecImpl<EntitlementStatusBody> for EntitlementStatus {
    open spec fn obeys_from_spec() -> bool {
        true
    }

    open spec fn from_spec(v: EntitlementStatusBody) -> EntitlementStatus {
        entitlement_of(v)
    }
}

#[derive(Clone, PartialEq, Eq)]
pub struct ActivationResponseBody {
    pub access_token: String,
    pub masked_license_key: String,
    pub bound_device: BoundDeviceBody,
    pub entitlement: EntitlementStatusBody,
    pub token_expires_at_ms: i64,
}

/// Why an activation response is rejected, if it is: an empty token, an
/// empty masked key or an invalid bound device, checked in that order.
pub open spec fn activation_body_error(b: ActivationResponseBody) -> Option<AuthError> {
    if trimmed(b.access_token@).len() == 0 {
        Some(AuthError::ReauthRequired)
    } else if trimmed(b.masked_license_key@).len() == 0 {
        Some(AuthError::InvalidLicenseKey)
    } else {
        bound_body_error(b.bound_device)
    }
}

impl ActivationResponseBody {
    pub fn into_outcome(self) -> (r: Result<ActivationOutcome, AuthError>)
        ensures
            r is Err <==> activation_body_error(self) is Some,
            r matches Err(e) ==> activation_body_error(self) == Some(e),
            r matches Ok(o) ==> {
                &&& o.access_token@ == trimmed(self.access_token@)
                &&& o.masked_license_key@ == trimmed(self.masked_license_key@)
                &&& o.bound_device@ == bound_body_view(self.bound_device)
                &&& o.entitlement == entitlement_of(self.entitlement)
                &&& o.token_expires_at_ms == self.token_expires_at_ms
            },
    {
        let access_token = AccessToken::new(self.access_token.as_str())?;
        let masked_license_key = MaskedLicenseKey::new(self.masked_license_key.as_str())?;
        let bound_device = self.bound_device.into_summary()?;
        Ok(
            ActivationOutcome {
                access_token,
                masked_license_key,
                bound_device,
                entitlement: EntitlementStatus::from(self.entitlement),
                token_expires_at_ms: self.token_expires_at_ms,
            },
        )
    }
}

#[derive(Debug, Clone, PartialEq, Eq)]
pub enum ValidationResponseBody {
    Active { masked_license_key: String, bound_device: BoundDeviceBody, token_expires_at_ms: i64 },
    ReauthRequired,
    Revoked,
}

impl ValidationResponseBody {
    pub fn into_validation(self) -> (r: Result<ValidationOutcome, AuthError>)
        ensures
            match self {
                ValidationResponseBody::Active {
                    masked_license_key,
                    bound_device,
                    token_expires_at_ms,
                } => {
                    &&& r is Err <==> (trimmed(masked_license_key@).len() == 0 || bound_body_error(
                        bound_device,
                    ) is Some)
                    &&& r matches Err(e) ==> e == if trimmed(masked_license_key@).len() == 0 {
                        AuthError::InvalidLicenseKey
                    } else {
                        bound_body_error(bound_device)->Some_0
                    }
                    &&& r matches Ok(o) ==> o@ == ValidationView::Active {
                        masked_license_key: trimmed(masked_license_key@),
                        bound_device: bound_body_view(bound_device),
                        token_expires_at_ms,
                    }
                },
                ValidationResponseBody::ReauthRequired => r == Ok::<ValidationOutcome, AuthError>(
                    ValidationOutcome::ReauthRequired,
                ),
                ValidationResponseBody::Revoked => r == Ok::<ValidationOutcome, AuthError>(
                    ValidationOutcome::Revoked,
                ),
            },
    {
        match self {
            ValidationResponseBody::Active { masked_license_key, bound_device, token_expires_at_ms } =>
                {
                let masked_license_key = MaskedLicenseKey::new(masked_license_key.as_str())?;
                let bound_device = bound_device.into_summary()?;
                Ok(ValidationOutcome::Active { masked_license_key, bound_device, token_expires_at_ms })
            },
            ValidationResponseBody::ReauthRequired => Ok(ValidationOutcome::ReauthRequired),
            ValidationResponseBody::Revoked => Ok(ValidationOutcome::Revoked),
        }
    }
}

#[derive(Debug, Clone, PartialEq, Eq)]
pub enum DeviceResetStatusBody {
    Pending { request_id: String, created_at_ms: i64 },
    Approved { request_id: String, decided_at_ms: i64 },
    Rejected { request_id: String, decided_at_ms: i64, reason: Option<String> },
    Expired { request_id: String, expired_at_ms: i64 },
    NotFound { request_id: String },
}

/// The request id a status body names.
pub open spec fn body_request_id(b: DeviceResetStatusBody) -> Seq<char> {
    match b {
        DeviceResetStatusBody::Pending { request_id, .. } => request_id@,
        DeviceResetStatusBody::Approved { request_id, .. } => request_id@,
        DeviceResetStatusBody::Rejected { request_id, .. } => request_id@,
        DeviceResetStatusBody::Expired { request_id, .. } => request_id@,
        DeviceResetStatusBody::NotFound { request_id } => request_id@,
    }
}

/// A status is the conversion of a status body: same variant, trimmed
/// request id, same times and reason.
pub open spec fn converted_status(b: DeviceResetStatusBody, st: DeviceResetStatus) -> bool {
    match b {
        DeviceResetStatusBody::Pending { request_id, created_at_ms } => st
            matches DeviceResetStatus::Pending { request_id: id, created_at_ms: t } && id@
            == trimmed(request_id@) && t == created_at_ms,
        DeviceResetStatusBody::Approved { request_id, decided_at_ms } => st
            matches DeviceResetStatus::Approved { request_id: id, decided_at_ms: t } && id@
            == trimmed(request_id@) && t == decided_at_ms,
        DeviceResetStatusBody::Rejected { request_id, decided_at_ms, reason } => st
            matches DeviceResetStatus::Rejected { request_id: id, decided_at_ms: t, reason: why }
            && id@ == trimmed(request_id@) && t == decided_at_ms && why == reason,
        DeviceResetStatusBody::Expired { request_id, expired_at_ms } => st
            matches DeviceResetStatus::Expired { request_id: id, expired_at_ms: t } && id@
            == trimmed(request_id@) && t == expired_at_ms,
        DeviceResetStatusBody::NotFound { request_id } => st
            matches DeviceResetStatus::NotFound { request_id: id } && id@ == trimmed(
            request_id@,
        ),
    }
}

impl DeviceResetStatusBody {
    pub fn into_status(self) -> (r: Result<DeviceResetStatus, AuthError>)
        ensures
            r is Err <==> trimmed(body_request_id(self)).len() == 0,
            r matches Err(e) ==> e == AuthError::InvalidResetRequest,
            r matches Ok(st) ==> converted_status(self, st),
    {
        match self {
            DeviceResetStatusBody::Pending { request_id, created_at_ms } => Ok(
                DeviceResetStatus::Pending {
                    request_id: ResetRequestId::new(request_id.as_str())?,
                    created_at_ms,
                },
            ),
            DeviceResetStatusBody::Approved { request_id, decided_at_ms } => Ok(
                DeviceResetStatus::Approved {
                    request_id: ResetRequestId::new(request_id.as_str())?,
                    decided_at_ms,
                },
            ),
            DeviceResetStatusBody::Rejected { request_id, decided_at_ms, reason } => Ok(
                DeviceResetStatus::Rejected {
                    request_id: ResetRequestId::new(request_id.as_str())?,
                    decided_at_ms,
                    reason,
                },
            ),
            DeviceResetStatusBody::Expired { request_id, expired_at_ms } => Ok(
                DeviceResetStatus::Expired {
                    request_id: ResetRequestId::new(request_id.as_str())?,
                    expired_at_ms,
                },
            ),
            DeviceResetStatusBody::NotFound { request_id } => Ok(
                DeviceResetStatus::NotFound {
                    request_id: ResetRequestId::new(request_id.as_str())?,
                },
            ),
        }
    }
}

/// A base URL with every trailing `/` taken off.
pub open spec fn without_trailing_slashes(s: Seq<char>) -> Seq<char>
    decreases s.len(),
{
    if s.len() > 0 && s.last() == '/' {
        without_trailing_slashes(s.drop_last())
    } else {
        s
    }
}

/// The worker's endpoints under one base URL.
#[derive(Debug, Clone, PartialEq, Eq)]
pub struct WorkerEndpoints {
    base_url: String,
}

impl WorkerEndpoints {
    pub closed spec fn base_of(&self) -> Seq<char> {
        self.base_url@
    }

    /// The endpoints under `base_url`, whose trailing slashes are dropped.
    pub fn new(base_url: &str) -> (r: Self)
        ensures
            r.base_of() == without_trailing_slashes(base_url@),
    {
        let chars = chars_of(base_url);
        let mut end: usize = chars.len();
        assert(chars@.subrange(0, end as int) =~= chars@);
        while end > 0 && chars[end - 1] == '/'
            invariant
                end <= chars@.len(),
                without_trailing_slashes(chars@.subrange(0, end as int)) == without_trailing_slashes(
                    base_url@,
                ),
                chars@ == base_url@,
            decreases end,
        {
            assert(chars@.subrange(0, end as int).drop_last() =~= chars@.subrange(0, end - 1));
            end = end - 1;
        }
        WorkerEndpoints { base_url: string_from_chars(&chars, 0, end) }
    }

    pub fn base_url(&self) -> (r: &str)
        ensures
            r@ == self.base_of(),
    {
        self.base_url.as_str()
    }

    fn url(&self, path: &str) -> (r: String)
        ensures
            r@ == self.base_of() + path@,
    {
        String::from_str(self.base_url.as_str()).concat(path)
    }

    pub fn activate_url(&self) -> (r: String)
        ensures
            r@ == self.base_of() + "/v1/activate"@,
    {
        self.url("/v1/activate")
    }

    pub fn validate_url(&self) -> (r: String)
        ensures
            r@ == self.base_of() + "/v1/session/validate"@,
    {
        self.url("/v1/session/validate")
    }

    pub fn reset_request_url(&self) -> (r: String)
        ensures
            r@ == self.base_of() + "/v1/device-reset/request"@,
    {
        self.url("/v1/device-reset/request")
    }

    pub fn reset_status_url(&self, request_id: &ResetRequestId) -> (r: String)
        ensures
            r@ == self.base_of() + "/v1/device-reset/status/"@ + request_id@,
    {
        let path = String::from_str("/v1/device-reset/status/").concat(request_id.as_str());
        self.url(path.as_str())
    }
}

/// A failed response whose body names the code of an error the worker
/// reports is that error, whatever its status: each code maps back to the
/// error it is the code of.
pub proof fn law_worker_codes_name_their_errors(e: AuthError, status: u16)
    requires
        !(e is Storage || e is Serialization || e is InvalidTransition),
    ensures
        code_error(error_code(e)) == Some(e),
        match code_error(error_code(e)) {
            Some(x) => x,
            None => status_error_spec(status),
        } == e,
{
    reveal_strlit("invalid_license_key");
    reveal_strlit("invalid_purchase_email");
    reveal_strlit("invalid_device_identity");
    reveal_strlit("invalid_reset_request");
    reveal_strlit("device_already_bound");
    reveal_strlit("reauth_required");
    reveal_strlit("token_expired");
    reveal_strlit("token_revoked");
    reveal_strlit("reset_request_not_found");
    reveal_strlit("unauthorized");
    reveal_strlit("worker_unreachable");
    match e {
        AuthError::InvalidLicenseKey => {},
        AuthError::InvalidPurchaseEmail => {
            assert("invalid_purchase_email"@ != "invalid_license_key"@) by {
                assert("invalid_purchase_email"@[8] != "invalid_license_key"@[8]);
            }
        },
        AuthError::InvalidDeviceIdentity => {
            assert("invalid_device_identity"@[8] != "invalid_license_key"@[8]);
            assert("invalid_device_identity"@.len() != "invalid_purchase_email"@.len());
        },
        AuthError::InvalidResetRequest => {
            assert("invalid_reset_request"@[8] != "invalid_license_key"@[8]);
            assert("invalid_reset_request"@[8] != "invalid_purchase_email"@[8]);
            assert("invalid_reset_request"@[8] != "invalid_device_identity"@[8]);
        },
        AuthError::DeviceAlreadyBound => {
            assert("device_already_bound"@[0] != "invalid_license_key"@[0]);
            assert("device_already_bound"@[0] != "invalid_purchase_email"@[0]);
            assert("device_already_bound"@[0] != "invalid_device_identity"@[0]);
            assert("device_already_bound"@[0] != "invalid_reset_request"@[0]);
        },
        AuthError::ReauthRequired => {
            assert("reauth_required"@[0] != "invalid_license_key"@[0]);
            assert("reauth_required"@[0] != "invalid_purchase_email"@[0]);
            assert("reauth_required"@[0] != "invalid_device_identity"@[0]);
            assert("reauth_required"@[0] != "invalid_reset_request"@[0]);
            assert("reauth_required"@[0] != "device_already_bound"@[0]);
        },
        AuthError::ResetRequestNotFound => {
            assert("reset_request_not_found"@[0] != "invalid_license_key"@[0]);
            assert("reset_request_not_found"@[0] != "invalid_purchase_email"@[0]);
            assert("reset_request_not_found"@[0] != "invalid_device_identity"@[0]);
            assert("reset_request_not_found"@[0] != "invalid_reset_request"@[0]);
            assert("reset_request_not_found"@[0] != "device_already_bound"@[0]);
            assert("reset_request_not_found"@[2] != "reauth_required"@[2]);
            assert("reset_request_not_found"@[0] != "token_expired"@[0]);
            assert("reset_request_not_found"@[0] != "token_revoked"@[0]);
        },
        AuthError::Unauthorized => {
            assert("unauthorized"@[0] != "invalid_license_key"@[0]);
            assert("unauthorized"@[0] != "invalid_purchase_email"@[0]);
            assert("unauthorized"@[0] != "invalid_device_identity"@[0]);
            assert("unauthorized"@[0] != "invalid_reset_request"@[0]);
            assert("unauthorized"@[0] != "device_already_bound"@[0]);
            assert("unauthorized"@[0] != "reauth_required"@[0]);
            assert("unauthorized"@[0] != "token_expired"@[0]);
            assert("unauthorized"@[0] != "token_revoked"@[0]);
            assert("unauthorized"@[0] != "reset_request_not_found"@[0]);
        },
        AuthError::WorkerUnreachable => {
            assert("worker_unreachable"@[0] != "invalid_license_key"@[0]);
            assert("worker_unreachable"@[0] != "invalid_purchase_email"@[0]);
            assert("worker_unreachable"@[0] != "invalid_device_identity"@[0]);
            assert("worker_unreachable"@[0] != "invalid_reset_request"@[0]);
            assert("worker_unreachable"@[0] != "device_already_bound"@[0]);
            assert("worker_unreachable"@[0] != "reauth_required"@[0]);
            assert("worker_unreachable"@[0] != "token_expired"@[0]);
            assert("worker_unreachable"@[0] != "token_revoked"@[0]);
            assert("worker_unreachable"@[0] != "reset_request_not_found"@[0]);
            assert("worker_unreachable"@[0] != "unauthorized"@[0]);
        },
        _ => {},
    }
}

/// A failed response without a known code is read by its status: bad request
/// is an invalid reset request, unauthorized and forbidden are unauthorized,
/// not found is a missing reset request, conflict is a device already bound,
/// gone requires re-authentication, and anything else is an unreachable
/// worker.
pub proof fn law_statuses_name_their_errors(status: u16)
    ensures
        status_error_spec(400) == AuthError::InvalidResetRequest,
        status_error_spec(401) == AuthError::Unauthorized,
        status_error_spec(403) == AuthError::Unauthorized,
        status_error_spec(404) == AuthError::ResetRequestNotFound,
        status_error_spec(409) == AuthError::DeviceAlreadyBound,
        status_error_spec(410) == AuthError::ReauthRequired,
        status != 400 && status != 401 && status != 403 && status != 404 && status != 409 && status
            != 410 ==> status_error_spec(status) == AuthError::WorkerUnreachable,
{
}

/// An expired or revoked token, as the worker reports it, requires
/// re-authentication.
pub proof fn law_token_codes_require_reauthentication()
    ensures
        code_error("token_expired"@) == Some(AuthError::ReauthRequired),
        code_error("token_revoked"@) == Some(AuthError::ReauthRequired),
{
    reveal_strlit("invalid_license_key");
    reveal_strlit("invalid_purchase_email");
    reveal_strlit("invalid_device_identity");
    reveal_strlit("invalid_reset_request");
    reveal_strlit("device_already_bound");
    reveal_strlit("reauth_required");
    reveal_strlit("token_expired");
    reveal_strlit("token_revoked");
    assert("token_expired"@[0] != "invalid_license_key"@[0]);
    assert("token_revoked"@[0] != "invalid_license_key"@[0]);
    assert("token_expired"@[0] != "invalid_purchase_email"@[0]);
    assert("token_revoked"@[0] != "invalid_purchase_email"@[0]);
    assert("token_expired"@[0] != "invalid_device_identity"@[0]);
    assert("token_revoked"@[0] != "invalid_device_identity"@[0]);
    assert("token_expired"@[0] != "invalid_reset_request"@[0]);
    assert("token_revoked"@[0] != "invalid_reset_request"@[0]);
    assert("token_expired"@[0] != "device_already_bound"@[0]);
    assert("token_revoked"@[0] != "device_already_bound"@[0]);
    assert("token_expired"@[0] != "reauth_required"@[0]);
    assert("token_revoked"@[0] != "reauth_required"@[0]);
}

} // verus!
