//! The licensing API client and the local store that the flows are given.

use super::models::LocalSession;
use crate::modules::shared_contracts::dto::{
    ActivateRequest, ActivateResponse, DeviceResetRequest, DeviceResetRequestAccepted,
    DeviceResetStatusResponse, SessionRenewResponse,
};
use crate::modules::shared_contracts::errors::ApiError;
use vstd::prelude::*;

verus! {

/// The licensing API. Each call gives back one of the answers the API may
/// give to its arguments.
pub trait ApiClient {
    /// `answer` is an answer the API may give to an activation.
    spec fn may_answer_activation(
        &self,
        req: ActivateRequest,
        idempotency_key: &str,
        answer: Result<ActivateResponse, ApiError>,
    ) -> bool;

    /// `answer` is an answer the API may give to a renewal of `access_token`.
    spec fn may_answer_renewal(
        &self,
        access_token: &str,
        answer: Result<SessionRenewResponse, ApiError>,
    ) -> bool;

    /// `answer` is an answer the API may give to a reset submission.
    spec fn may_answer_submission(
        &self,
        req: DeviceResetRequest,
        idempotency_key: &str,
        answer: Result<DeviceResetRequestAccepted, ApiError>,
    ) -> bool;

    /// `answer` is an answer the API may give about `reset_request_id`.
    spec fn may_answer_status(
        &self,
        reset_request_id: &str,
        answer: Result<DeviceResetStatusResponse, ApiError>,
    ) -> bool;

    fn activate(&self, req: &ActivateRequest, idempotency_key: &str) -> (r: Result<
        ActivateResponse,
        ApiError,
    >)
        ensures
            self.may_answer_activation(*req, idempotency_key, r),
    ;

    fn renew_session(&self, access_token: &str) -> (r: Result<SessionRenewResponse, ApiError>)
        ensures
            self.may_answer_renewal(access_token, r),
    ;

    fn submit_reset(&self, req: &DeviceResetRequest, idempotency_key: &str) -> (r: Result<
        DeviceResetRequestAccepted,
        ApiError,
    >)
        ensures
            self.may_answer_submission(*req, idempotency_key, r),
    ;

    fn reset_status(&self, reset_request_id: &str) -> (r: Result<DeviceResetStatusResponse, ApiError>)
        ensures
            self.may_answer_status(reset_request_id, r),
    ;
}

/// The device's local store: a read gives back what the last successful
/// write stored, and each write leaves the other entry as it was.
pub trait LocalStore {
    /// The session the store holds.
    spec fn stored_session(&self) -> Option<LocalSession>;

    /// The reset request identifier the store holds.
    spec fn stored_reset_request_id(&self) -> Option<String>;

    fn load_session(&self) -> (r: Option<LocalSession>)
        ensures
            r == self.stored_session(),
    ;

    fn save_session(&mut self, session: LocalSession) -> (r: Result<(), String>)
        ensures
            r is Ok ==> final(self).stored_session() == Some(session),
            final(self).stored_reset_request_id() == old(self).stored_reset_request_id(),
    ;

    fn save_reset_request_id(&mut self, reset_request_id: String) -> (r: Result<(), String>)
        ensures
            r is Ok ==> final(self).stored_reset_request_id() == Some(reset_request_id),
            final(self).stored_session() == old(self).stored_session(),
    ;

    fn load_reset_request_id(&self) -> (r: Option<String>)
        ensures
            r == self.stored_reset_request_id(),
    ;
}

} // verus!
