//! The error envelope of the licensing API.

use vstd::prelude::*;

verus! {

#[derive(Debug, Clone, Copy, PartialEq, Eq, Structural)]
pub enum ErrorCode {
    LicenseInvalid,
    LicenseRevoked,
    LicenseSuspended,
    LicenseAlreadyBound,
    SessionReauthRequired,
    ResetRequestNotFound,
    ResetRequestConflict,
    AdminAuthInvalid,
    AdminForbidden,
}

#[derive(Debug, Clone, PartialEq, Eq)]
pub struct ErrorBody {
    pub code: ErrorCode,
    pub message: String,
    pub retryable: bool,
}

#[derive(Debug, Clone, PartialEq, Eq)]
pub struct ApiError {
    pub error: ErrorBody,
    pub request_id: String,
}

impl ApiError {
    pub fn new(code: ErrorCode, message: &str, retryable: bool, request_id: &str) -> (r: Self)
        ensures
            r.error.code == code,
            r.error.message@ == message@,
            r.error.retryable == retryable,
            r.request_id@ == request_id@,
    {
        ApiError {
            error: ErrorBody { code, message: String::from_str(message), retryable },
            request_id: String::from_str(request_id),
        }
    }
}

} // verus!
