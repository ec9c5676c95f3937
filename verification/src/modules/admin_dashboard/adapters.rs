//! The admin API and the session store that the console is given.

use super::auth::AuthSession;
use crate::modules::shared_contracts::dto::{
    AdminAuthChallengeRequest, AdminAuthChallengeResponse, AdminAuthVerifyRequest,
    AdminAuthVerifyResponse, AdminResetDecisionResponse, DeviceResetStatusResponse,
};
use crate::modules::shared_contracts::errors::ApiError;
use vstd::prelude::*;

verus! {

/// The licensing backend's admin endpoints. Each call gives back one of the
/// answers the backend may give to its arguments.
pub trait AdminApi {
    /// `answer` is an answer the backend may give to a challenge request.
    spec fn may_answer_challenge(
        &self,
        req: AdminAuthChallengeRequest,
        answer: Result<AdminAuthChallengeResponse, ApiError>,
    ) -> bool;

    /// `answer` is an answer the backend may give to a signature check.
    spec fn may_answer_verify(
        &self,
        req: AdminAuthVerifyRequest,
        answer: Result<AdminAuthVerifyResponse, ApiError>,
    ) -> bool;

    /// `answer` is an answer the backend may give to approving a request.
    spec fn may_answer_approve(
        &self,
        reset_request_id: &str,
        idempotency_key: &str,
        answer: Result<AdminResetDecisionResponse, ApiError>,
    ) -> bool;

    /// `answer` is an answer the backend may give to rejecting a request.
    spec fn may_answer_reject(
        &self,
        reset_request_id: &str,
        idempotency_key: &str,
        answer: Result<AdminResetDecisionResponse, ApiError>,
    ) -> bool;

    fn get_challenge(&self, req: &AdminAuthChallengeRequest) -> (r: Result<
        AdminAuthChallengeResponse,
        ApiError,
    >)
        ensures
            self.may_answer_challenge(*req, r),
    ;

    fn verify_challenge(&self, req: &AdminAuthVerifyRequest) -> (r: Result<
        AdminAuthVerifyResponse,
        ApiError,
    >)
        ensures
            self.may_answer_verify(*req, r),
    ;

    fn list_pending_resets(&self) -> Result<Vec<DeviceResetStatusResponse>, ApiError>;

    fn approve_reset(&self, reset_request_id: &str, idempotency_key: &str) -> (r: Result<
        AdminResetDecisionResponse,
        ApiError,
    >)
        ensures
            self.may_answer_approve(reset_request_id, idempotency_key, r),
    ;

    fn reject_reset(&self, reset_request_id: &str, idempotency_key: &str) -> (r: Result<
        AdminResetDecisionResponse,
        ApiError,
    >)
        ensures
            self.may_answer_reject(reset_request_id, idempotency_key, r),
    ;
}

/// Where the console keeps the operator's session: a read gives back what
/// the last successful save stored.
pub trait SessionStore {
    /// The session the store holds.
    spec fn saved(&self) -> Option<AuthSession>;

    fn save_session(&mut self, session: AuthSession) -> (r: Result<(), String>)
        ensures
            r is Ok ==> final(self).saved() == Some(session),
    ;

    fn load_session(&self) -> (r: Option<AuthSession>)
        ensures
            r == self.saved(),
    ;
}

} // verus!
