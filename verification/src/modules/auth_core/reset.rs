//! Submitting a device reset and polling it until it is decided.

use super::adapters::{ApiClient, LocalStore};
use crate::modules::shared_contracts::dto::{
    DeviceResetRequest, DeviceResetRequestAccepted, DeviceResetStatusResponse,
};
use crate::modules::shared_contracts::errors::ApiError;
use crate::modules::shared_contracts::state::ResetRequestState;
use vstd::prelude::*;

verus! {

#[derive(Debug, PartialEq, Eq)]
pub enum ResetError {
    Remote(String),
    Storage(String),
    PollAttemptsExhausted,
}

#[derive(Debug, Clone, Copy, PartialEq, Eq, Structural)]
pub enum PollStatus {
    Continue,
    TerminalApproved,
    TerminalRejected,
    TerminalExpired,
}

/// What a reset state means for polling: approved, rejected and expired are
/// terminal, anything else means poll again.
pub open spec fn poll_status_spec(state: ResetRequestState) -> PollStatus {
    match state {
        ResetRequestState::Approved => PollStatus::TerminalApproved,
        ResetRequestState::Rejected => PollStatus::TerminalRejected,
        ResetRequestState::Expired => PollStatus::TerminalExpired,
        _ => PollStatus::Continue,
    }
}

pub fn poll_status_of(state: ResetRequestState) -> (r: PollStatus)
    ensures
        r == poll_status_spec(state),
{
    match state {
        ResetRequestState::Approved => PollStatus::TerminalApproved,
        ResetRequestState::Rejected => PollStatus::TerminalRejected,
        ResetRequestState::Expired => PollStatus::TerminalExpired,
        _ => PollStatus::Continue,
    }
}

/// Records the API's answer to a reset submission: an error is reported by
/// its message and nothing is stored; an acceptance stores the request's
/// identifier.
pub open spec fn submission_applied(
    answer: Result<DeviceResetRequestAccepted, ApiError>,
    r: Result<DeviceResetRequestAccepted, ResetError>,
    before: Option<String>,
    after: Option<String>,
) -> bool {
    match answer {
        Err(e) => r == Err::<DeviceResetRequestAccepted, ResetError>(
            ResetError::Remote(e.error.message),
        ) && after == before,
        Ok(a) => {
            &&& r is Ok ==> r == Ok::<DeviceResetRequestAccepted, ResetError>(a) && after == Some(
                a.reset_request_id,
            )
            &&& r matches Err(e) ==> e is Storage
        },
    }
}

/// What one status answer means for polling, as [`poll_step`] reads it.
pub open spec fn poll_step_spec(answer: Result<DeviceResetStatusResponse, ApiError>) -> Option<
    Result<PollStatus, ResetError>,
> {
    match answer {
        Err(e) => Some(Err(ResetError::Remote(e.error.message))),
        Ok(s) => if poll_status_spec(s.status) == PollStatus::Continue {
            None
        } else {
            Some(Ok(poll_status_spec(s.status)))
        },
    }
}

pub fn apply_reset_submission<S: LocalStore>(
    store: &mut S,
    outcome: Result<DeviceResetRequestAccepted, ApiError>,
) -> (r: Result<DeviceResetRequestAccepted, ResetError>)
    ensures
        final(store).stored_session() == old(store).stored_session(),
        outcome matches Err(e) ==> r == Err::<DeviceResetRequestAccepted, ResetError>(
            ResetError::Remote(e.error.message),
        ) && final(store).stored_reset_request_id() == old(store).stored_reset_request_id(),
        outcome matches Ok(a) ==> (r is Ok ==> r == Ok::<DeviceResetRequestAccepted, ResetError>(a)
            && final(store).stored_reset_request_id() == Some(a.reset_request_id)),
        outcome is Ok ==> (r matches Err(e) ==> e is Storage),
        submission_applied(
            outcome,
            r,
            old(store).stored_reset_request_id(),
            final(store).stored_reset_request_id(),
        ),
{
    let accepted = match outcome {
        Ok(a) => a,
        Err(e) => {
            return Err(ResetError::Remote(e.error.message));
        },
    };
    let id = accepted.reset_request_id.clone();
    match store.save_reset_request_id(id) {
        Ok(()) => Ok(accepted),
        Err(e) => Err(ResetError::Storage(e)),
    }
}

/// Submits the reset request and stores the identifier it is given.
pub fn submit_reset_request<A: ApiClient, S: LocalStore>(
    api: &A,
    store: &mut S,
    req: &DeviceResetRequest,
    idempotency_key: &str,
) -> (r: Result<DeviceResetRequestAccepted, ResetError>)
    ensures
        final(store).stored_session() == old(store).stored_session(),
        r matches Ok(a) ==> final(store).stored_reset_request_id() == Some(a.reset_request_id),
        r matches Err(e) ==> (e is Remote || e is Storage),
        r matches Err(ResetError::Remote(_)) ==> final(store).stored_reset_request_id() == old(store).stored_reset_request_id(),
        exists|a: Result<DeviceResetRequestAccepted, ApiError>| #[trigger]
            api.may_answer_submission(*req, idempotency_key, a) && submission_applied(
                a,
                r,
                old(store).stored_reset_request_id(),
                final(store).stored_reset_request_id(),
            ),
{
    let outcome = api.submit_reset(req, idempotency_key);
    let ghost a = outcome;
    let r = apply_reset_submission(store, outcome);
    assert(api.may_answer_submission(*req, idempotency_key, a));
    r
}

/// What one status answer means for polling: an error stops polling with
/// its message, a terminal status stops it with that status, and any other
/// status means asking again (`None`).
pub fn poll_step(answer: Result<DeviceResetStatusResponse, ApiError>) -> (r: Option<
    Result<PollStatus, ResetError>,
>)
    ensures
        r == poll_step_spec(answer),
        answer matches Err(e) ==> r == Some(
            Err::<PollStatus, ResetError>(ResetError::Remote(e.error.message)),
        ),
        answer matches Ok(s) ==> (poll_status_spec(s.status) == PollStatus::Continue ==> r is None),
        answer matches Ok(s) ==> (poll_status_spec(s.status) != PollStatus::Continue ==> r == Some(
            Ok::<PollStatus, ResetError>(poll_status_spec(s.status)),
        )),
{
    let status = match answer {
        Ok(s) => s,
        Err(e) => {
            return Some(Err(ResetError::Remote(e.error.message)));
        },
    };
    let mapped = poll_status_of(status.status);
    if mapped != PollStatus::Continue {
        Some(Ok(mapped))
    } else {
        None
    }
}

/// Asks for the request's status at most `max_attempts` times, each answer
/// read by [`poll_step`], and returns the first terminal status.
pub fn poll_until_terminal<A: ApiClient>(
    api: &A,
    reset_request_id: &str,
    max_attempts: usize,
) -> (r: Result<PollStatus, ResetError>)
    ensures
        r matches Ok(s) ==> s != PollStatus::Continue,
        r matches Err(e) ==> (e is Remote || e == ResetError::PollAttemptsExhausted),
        max_attempts == 0 ==> r == Err::<PollStatus, ResetError>(
            ResetError::PollAttemptsExhausted,
        ),
        r == Err::<PollStatus, ResetError>(ResetError::PollAttemptsExhausted) || exists|
            a: Result<DeviceResetStatusResponse, ApiError>,
        | #[trigger] api.may_answer_status(reset_request_id, a) && poll_step_spec(a) == Some(r),
        r == Err::<PollStatus, ResetError>(ResetError::PollAttemptsExhausted) && max_attempts > 0
            ==> exists|a: Result<DeviceResetStatusResponse, ApiError>| #[trigger]
            api.may_answer_status(reset_request_id, a) && poll_step_spec(a) is None,
{
    let mut attempt: usize = 0;
    while attempt < max_attempts
        invariant
            attempt <= max_attempts,
            attempt > 0 ==> exists|a: Result<DeviceResetStatusResponse, ApiError>| #[trigger]
                api.may_answer_status(reset_request_id, a) && poll_step_spec(a) is None,
        decreases max_attempts - attempt,
    {
        let answer = api.reset_status(reset_request_id);
        let ghost a = answer;
        assert(api.may_answer_status(reset_request_id, a));
        match poll_step(answer) {
            Some(outcome) => {
                assert(api.may_answer_status(reset_request_id, a));
                return outcome;
            },
            None => {},
        }
        attempt = attempt + 1;
    }
    Err(ResetError::PollAttemptsExhausted)
}

/// Polling stops at the decided states only, each reported as the terminal
/// status of the same name; a pending request or one under review is asked
/// about again, and an API error stops polling with the API's message.
pub proof fn law_polling_stops_at_decisions(state: ResetRequestState, e: ApiError)
    ensures
        (poll_status_spec(state) == PollStatus::TerminalApproved) == (state
            == ResetRequestState::Approved),
        (poll_status_spec(state) == PollStatus::TerminalRejected) == (state
            == ResetRequestState::Rejected),
        (poll_status_spec(state) == PollStatus::TerminalExpired) == (state
            == ResetRequestState::Expired),
        (poll_status_spec(state) == PollStatus::Continue) == (state == ResetRequestState::Pending
            || state == ResetRequestState::UnderReview),
        poll_step_spec(Err(e)) == Some(
            Err::<PollStatus, ResetError>(ResetError::Remote(e.error.message)),
        ),
{
}

} // verus!
