//! Approving and rejecting queued reset requests.

use super::adapters::AdminApi;
use crate::modules::shared_contracts::dto::AdminResetDecisionResponse;
use crate::modules::shared_contracts::errors::ApiError;
use vstd::prelude::*;

verus! {

#[derive(Debug, PartialEq, Eq)]
pub enum QueueError {
    Remote(String),
}

/// A decision's answer, with an API error reported by its message.
pub open spec fn decision_outcome_spec(r: Result<AdminResetDecisionResponse, ApiError>) -> Result<
    AdminResetDecisionResponse,
    QueueError,
> {
    match r {
        Ok(d) => Ok(d),
        Err(e) => Err(QueueError::Remote(e.error.message)),
    }
}

/// A decision's answer, with an API error reported by its message.
pub fn decision_outcome(r: Result<AdminResetDecisionResponse, ApiError>) -> (out: Result<
    AdminResetDecisionResponse,
    QueueError,
>)
    ensures
        out == decision_outcome_spec(r),
        r matches Ok(d) ==> out == Ok::<AdminResetDecisionResponse, QueueError>(d),
        r matches Err(e) ==> out == Err::<AdminResetDecisionResponse, QueueError>(
            QueueError::Remote(e.error.message),
        ),
{
    match r {
        Ok(d) => Ok(d),
        Err(e) => Err(QueueError::Remote(e.error.message)),
    }
}

pub fn approve<A: AdminApi>(api: &A, reset_request_id: &str, idempotency_key: &str) -> (r: Result<
    AdminResetDecisionResponse,
    QueueError,
>)
    ensures
        r matches Err(e) ==> e is Remote,
        exists|a: Result<AdminResetDecisionResponse, ApiError>| #[trigger]
            api.may_answer_approve(reset_request_id, idempotency_key, a) && r
                == decision_outcome_spec(a),
{
    let answer = api.approve_reset(reset_request_id, idempotency_key);
    let ghost a = answer;
    let r = decision_outcome(answer);
    assert(api.may_answer_approve(reset_request_id, idempotency_key, a));
    r
}

pub fn reject<A: AdminApi>(api: &A, reset_request_id: &str, idempotency_key: &str) -> (r: Result<
    AdminResetDecisionResponse,
    QueueError,
>)
    ensures
        r matches Err(e) ==> e is Remote,
        exists|a: Result<AdminResetDecisionResponse, ApiError>| #[trigger]
            api.may_answer_reject(reset_request_id, idempotency_key, a) && r
                == decision_outcome_spec(a),
{
    let answer = api.reject_reset(reset_request_id, idempotency_key);
    let ghost a = answer;
    let r = decision_outcome(answer);
    assert(api.may_answer_reject(reset_request_id, idempotency_key, a));
    r
}

/// A decision's answer is returned as it is, and an API error is reported by
/// the API's message.
pub proof fn law_decision_answers_pass_through(
    d: AdminResetDecisionResponse,
    e: ApiError,
)
    ensures
        decision_outcome_spec(Ok(d)) == Ok::<AdminResetDecisionResponse, QueueError>(d),
        decision_outcome_spec(Err(e)) == Err::<AdminResetDecisionResponse, QueueError>(
            QueueError::Remote(e.error.message),
        ),
{
}

} // verus!
