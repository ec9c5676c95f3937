//! Request and response bodies of the licensing API.

use super::state::{LicenseState, ResetRequestState};
use vstd::prelude::*;

verus! {

#[derive(Debug, Clone, Copy, PartialEq, Eq, Structural)]
pub enum Platform {
    Windows,
    Macos,
    Linux,
}

#[derive(Debug, Clone, PartialEq, Eq)]
pub struct DeviceMetadata {
    pub device_id: String,
    pub platform: Platform,
    pub app_version: String,
}

#[derive(Debug, Clone, PartialEq, Eq)]
pub struct ActivateRequest {
    pub license_key: String,
    pub device: DeviceMetadata,
}

#[derive(Debug, Clone, PartialEq, Eq)]
pub struct ActivateResponse {
    pub license_id: String,
    pub state: LicenseState,
    pub access_token: String,
    pub expires_in_sec: u64,
}

#[derive(Debug, Clone, PartialEq, Eq)]
pub struct SessionRenewResponse {
    pub access_token: String,
    pub expires_in_sec: u64,
}

#[derive(Debug, Clone, PartialEq, Eq)]
pub struct DeviceResetRequest {
    pub license_key: String,
    pub purchaser_email: String,
    pub device: DeviceMetadata,
    pub order_ref: Option<String>,
}

#[derive(Debug, Clone, PartialEq, Eq)]
pub struct DeviceResetRequestAccepted {
    pub reset_request_id: String,
    pub status: ResetRequestState,
}

#[derive(Debug, Clone, PartialEq, Eq)]
pub struct DeviceResetStatusResponse {
    pub reset_request_id: String,
    pub status: ResetRequestState,
    pub license_state: LicenseState,
    pub message: String,
}

#[derive(Debug, Clone, PartialEq, Eq)]
pub struct AdminAuthChallengeRequest {
    pub operator_id: String,
}

#[derive(Debug, Clone, PartialEq, Eq)]
pub struct AdminAuthChallengeResponse {
    pub challenge_id: String,
    pub nonce: String,
    pub expires_in_sec: u64,
}

#[derive(Debug, Clone, PartialEq, Eq)]
pub struct AdminAuthVerifyRequest {
    pub operator_id: String,
    pub challenge_id: String,
    pub signature: String,
}

#[derive(Debug, Clone, PartialEq, Eq)]
pub struct AdminAuthVerifyResponse {
    pub admin_access_token: String,
    pub expires_in_sec: u64,
    pub scopes: Vec<String>,
}

#[derive(Debug, Clone, PartialEq, Eq)]
pub struct AdminResetDecisionResponse {
    pub reset_request_id: String,
    pub status: ResetRequestState,
    pub license_state: LicenseState,
}

} // verus!
