//! The client's session state machine and the status of a device reset.

use super::domain::{AuthError, BoundDeviceSummary, MaskedLicenseKey, ResetRequestId};
use vstd::prelude::*;

verus! {

#[allow(inconsistent_fields)]
#[derive(Debug, PartialEq, Eq)]
pub enum SessionState {
    Unauthenticated,
    Licensed {
        masked_license_key: MaskedLicenseKey,
        bound_device: BoundDeviceSummary,
        token_expires_at_ms: i64,
    },
    ReauthRequired { masked_license_key: Option<MaskedLicenseKey> },
    ResetPending { request_id: ResetRequestId, masked_license_key: Option<MaskedLicenseKey> },
    ResetApprovedUnbound {
        request_id: ResetRequestId,
        masked_license_key: Option<MaskedLicenseKey>,
    },
    ResetRejected { request_id: ResetRequestId, masked_license_key: Option<MaskedLicenseKey> },
    ResetExpired { request_id: ResetRequestId, masked_license_key: Option<MaskedLicenseKey> },
}

pub fn clone_masked(m: &Option<MaskedLicenseKey>) -> (r: Option<MaskedLicenseKey>)
    ensures
        r == *m,
{
    match m {
        Some(k) => Some(k.clone()),
        None => None,
    }
}

impl Clone for SessionState {
    fn clone(&self) -> (r: Self)
        ensures
            r == *self,
    {
        match self {
            SessionState::Unauthenticated => SessionState::Unauthenticated,
            SessionState::Licensed { masked_license_key, bound_device, token_expires_at_ms } =>
                SessionState::Licensed {
                masked_license_key: masked_license_key.clone(),
                bound_device: bound_device.clone(),
                token_expires_at_ms: *token_expires_at_ms,
            },
            SessionState::ReauthRequired { masked_license_key } => SessionState::ReauthRequired {
                masked_license_key: clone_masked(masked_license_key),
            },
            SessionState::ResetPending { request_id, masked_license_key } =>
                SessionState::ResetPending {
                request_id: request_id.clone(),
                masked_license_key: clone_masked(masked_license_key),
            },
            SessionState::ResetApprovedUnbound { request_id, masked_license_key } =>
                SessionState::ResetApprovedUnbound {
                request_id: request_id.clone(),
                masked_license_key: clone_masked(masked_license_key),
            },
            SessionState::ResetRejected { request_id, masked_license_key } =>
                SessionState::ResetRejected {
                request_id: request_id.clone(),
                masked_license_key: clone_masked(masked_license_key),
            },
            SessionState::ResetExpired { request_id, masked_license_key } =>
                SessionState::ResetExpired {
                request_id: request_id.clone(),
                masked_license_key: clone_masked(masked_license_key),
            },
        }
    }
}

impl Default for SessionState {
    fn default() -> (r: Self)
        ensures
            r == SessionState::Unauthenticated,
    {
        SessionState::Unauthenticated
    }
}

/// The session state that a reset status leads to, keeping the masked key;
/// a status for an unknown request is an error.
pub open spec fn state_after_reset(
    status: DeviceResetStatus,
    masked_license_key: Option<MaskedLicenseKey>,
) -> Result<SessionState, AuthError> {
    match status {
        DeviceResetStatus::Pending { request_id, .. } => Ok(
            SessionState::ResetPending { request_id, masked_license_key },
        ),
        DeviceResetStatus::Approved { request_id, .. } => Ok(
            SessionState::ResetApprovedUnbound { request_id, masked_license_key },
        ),
        DeviceResetStatus::Rejected { request_id, .. } => Ok(
            SessionState::ResetRejected { request_id, masked_license_key },
        ),
        DeviceResetStatus::Expired { request_id, .. } => Ok(
            SessionState::ResetExpired { request_id, masked_license_key },
        ),
        DeviceResetStatus::NotFound { .. } => Err(AuthError::ResetRequestNotFound),
    }
}

/// The masked license key that a session state remembers, if any.
pub open spec fn masked_of(state: SessionState) -> Option<MaskedLicenseKey> {
    match state {
        SessionState::Unauthenticated => None,
        SessionState::Licensed { masked_license_key, .. } => Some(masked_license_key),
        SessionState::ReauthRequired { masked_license_key } => masked_license_key,
        SessionState::ResetPending { masked_license_key, .. } => masked_license_key,
        SessionState::ResetApprovedUnbound { masked_license_key, .. } => masked_license_key,
        SessionState::ResetRejected { masked_license_key, .. } => masked_license_key,
        SessionState::ResetExpired { masked_license_key, .. } => masked_license_key,
    }
}

impl SessionState {
    pub fn after_activation(
        masked_license_key: MaskedLicenseKey,
        bound_device: BoundDeviceSummary,
        token_expires_at_ms: i64,
    ) -> (r: Self)
        ensures
            r == (SessionState::Licensed {
                masked_license_key,
                bound_device,
                token_expires_at_ms,
            }),
    {
        Self::Licensed { masked_license_key, bound_device, token_expires_at_ms }
    }

    pub fn require_reauth(masked_license_key: Option<MaskedLicenseKey>) -> (r: Self)
        ensures
            r == (SessionState::ReauthRequired { masked_license_key }),
    {
        Self::ReauthRequired { masked_license_key }
    }

    pub fn after_reset_status(
        status: &DeviceResetStatus,
        masked_license_key: Option<MaskedLicenseKey>,
    ) -> (r: Result<Self, AuthError>)
        ensures
            r == state_after_reset(*status, masked_license_key),
    {
        match status {
            DeviceResetStatus::Pending { request_id, .. } => Ok(
                Self::ResetPending { request_id: request_id.clone(), masked_license_key },
            ),
            DeviceResetStatus::Approved { request_id, .. } => Ok(
                Self::ResetApprovedUnbound { request_id: request_id.clone(), masked_license_key },
            ),
            DeviceResetStatus::Rejected { request_id, .. } => Ok(
                Self::ResetRejected { request_id: request_id.clone(), masked_license_key },
            ),
            DeviceResetStatus::Expired { request_id, .. } => Ok(
                Self::ResetExpired { request_id: request_id.clone(), masked_license_key },
            ),
            DeviceResetStatus::NotFound { .. } => Err(AuthError::ResetRequestNotFound),
        }
    }
}

#[derive(Debug, PartialEq, Eq)]
pub enum DeviceResetStatus {
    Pending { request_id: ResetRequestId, created_at_ms: i64 },
    Approved { request_id: ResetRequestId, decided_at_ms: i64 },
    Rejected { request_id: ResetRequestId, decided_at_ms: i64, reason: Option<String> },
    Expired { request_id: ResetRequestId, expired_at_ms: i64 },
    NotFound { request_id: ResetRequestId },
}

impl Clone for DeviceResetStatus {
    fn clone(&self) -> (r: Self)
        ensures
            r == *self,
    {
        match self {
            DeviceResetStatus::Pending { request_id, created_at_ms } => DeviceResetStatus::Pending {
                request_id: request_id.clone(),
                created_at_ms: *created_at_ms,
            },
            DeviceResetStatus::Approved { request_id, decided_at_ms } =>
                DeviceResetStatus::Approved {
                request_id: request_id.clone(),
                decided_at_ms: *decided_at_ms,
            },
            DeviceResetStatus::Rejected { request_id, decided_at_ms, reason } =>
                DeviceResetStatus::Rejected {
                request_id: request_id.clone(),
                decided_at_ms: *decided_at_ms,
                reason: match reason {
                    Some(s) => Some(s.clone()),
                    None => None,
                },
            },
            DeviceResetStatus::Expired { request_id, expired_at_ms } => DeviceResetStatus::Expired {
                request_id: request_id.clone(),
                expired_at_ms: *expired_at_ms,
            },
            DeviceResetStatus::NotFound { request_id } => DeviceResetStatus::NotFound {
                request_id: request_id.clone(),
            },
        }
    }
}

/// The request that a reset status is about.
pub open spec fn status_request_id(status: DeviceResetStatus) -> ResetRequestId {
    match status {
        DeviceResetStatus::Pending { request_id, .. } => request_id,
        DeviceResetStatus::Approved { request_id, .. } => request_id,
        DeviceResetStatus::Rejected { request_id, .. } => request_id,
        DeviceResetStatus::Expired { request_id, .. } => request_id,
        DeviceResetStatus::NotFound { request_id } => request_id,
    }
}

impl DeviceResetStatus {
    pub fn request_id(&self) -> (r: &ResetRequestId)
        ensures
            *r == status_request_id(*self),
    {
        match self {
            Self::Pending { request_id, .. } => request_id,
            Self::Approved { request_id, .. } => request_id,
            Self::Rejected { request_id, .. } => request_id,
            Self::Expired { request_id, .. } => request_id,
            Self::NotFound { request_id } => request_id,
        }
    }

    pub fn approved_message() -> (r: &'static str)
        ensures
            r@ == "Device reset approved. You can now use this license key to activate a device."@,
    {
        "Device reset approved. You can now use this license key to activate a device."
    }
}

/// A reset status for a known request moves the session to the reset state
/// of the same request and keeps the masked license key it was given.
pub proof fn law_reset_keeps_request_and_masked_key(
    status: DeviceResetStatus,
    masked_license_key: Option<MaskedLicenseKey>,
)
    requires
        !(status is NotFound),
    ensures
        state_after_reset(status, masked_license_key) is Ok,
        masked_of(state_after_reset(status, masked_license_key)->Ok_0) == masked_license_key,
        state_after_reset(status, masked_license_key)->Ok_0 matches (SessionState::ResetPending {
            request_id,
            ..
        } | SessionState::ResetApprovedUnbound { request_id, .. } | SessionState::ResetRejected {
            request_id,
            ..
        } | SessionState::ResetExpired { request_id, .. }) && request_id == status_request_id(
            status,
        ),
{
}

/// The request a reset state is about, if any.
pub open spec fn state_request_id(s: SessionState) -> Option<ResetRequestId> {
    match s {
        SessionState::ResetPending { request_id, .. } => Some(request_id),
        SessionState::ResetApprovedUnbound { request_id, .. } => Some(request_id),
        SessionState::ResetRejected { request_id, .. } => Some(request_id),
        SessionState::ResetExpired { request_id, .. } => Some(request_id),
        _ => None,
    }
}

/// Every state but the unauthenticated one remembers the masked key it was
/// built with: a licensed state its key, the others the key they carry.
pub proof fn law_states_remember_their_masked_key(
    masked_license_key: MaskedLicenseKey,
    bound_device: BoundDeviceSummary,
    token_expires_at_ms: i64,
    carried: Option<MaskedLicenseKey>,
    request_id: ResetRequestId,
)
    ensures
        masked_of(SessionState::Unauthenticated) is None,
        masked_of(
            SessionState::Licensed { masked_license_key, bound_device, token_expires_at_ms },
        ) == Some(masked_license_key),
        masked_of(SessionState::ReauthRequired { masked_license_key: carried }) == carried,
        masked_of(SessionState::ResetPending { request_id, masked_license_key: carried }) == carried,
        masked_of(SessionState::ResetApprovedUnbound { request_id, masked_license_key: carried })
            == carried,
        masked_of(SessionState::ResetRejected { request_id, masked_license_key: carried })
            == carried,
        masked_of(SessionState::ResetExpired { request_id, masked_license_key: carried }) == carried,
{
}

/// Each reset status for a known request leads to the reset state of the
/// same name; a status for an unknown request is refused as not found.
pub proof fn law_reset_states_follow_their_status(
    status: DeviceResetStatus,
    masked_license_key: Option<MaskedLicenseKey>,
)
    ensures
        (state_after_reset(status, masked_license_key) matches Ok(s) && s is ResetPending) == (
        status is Pending),
        (state_after_reset(status, masked_license_key) matches Ok(s) && s is ResetApprovedUnbound)
            == (status is Approved),
        (state_after_reset(status, masked_license_key) matches Ok(s) && s is ResetRejected) == (
        status is Rejected),
        (state_after_reset(status, masked_license_key) matches Ok(s) && s is ResetExpired) == (
        status is Expired),
        (state_after_reset(status, masked_license_key) is Err) == (status is NotFound),
        status is NotFound ==> state_after_reset(status, masked_license_key) == Err::<
            SessionState,
            AuthError,
        >(AuthError::ResetRequestNotFound),
{
}

} // verus!
