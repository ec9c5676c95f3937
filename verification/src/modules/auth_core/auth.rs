//! Activation and session renewal.

use super::adapters::{ApiClient, LocalStore};
use super::models::LocalSession;
use crate::modules::shared_contracts::dto::{
    ActivateRequest, ActivateResponse, SessionRenewResponse,
};
use crate::modules::shared_contracts::errors::{ApiError, ErrorCode};
use vstd::prelude::*;

verus! {

#[derive(Debug, PartialEq, Eq)]
pub enum AuthError {
    LicenseInvalid,
    LicenseRevoked,
    LicenseSuspended,
    LicenseAlreadyBound,
    SessionReauthRequired,
    Storage(String),
    Remote(String),
}

/// `s` is the local session that the activation answer `res` starts:
/// its license and token, binding and token epoch both 1.
pub open spec fn is_activation_session(s: LocalSession, res: ActivateResponse) -> bool {
    &&& s.license_id@ == res.license_id@
    &&& s.access_token@ == res.access_token@
    &&& s.expires_in_sec == res.expires_in_sec
    &&& s.binding_epoch == 1
    &&& s.token_epoch == 1
}

/// `s` is the stored session `prior` after the renewal `renewed`: the new
/// token and expiry, and the token epoch caught up with the binding epoch.
pub open spec fn is_renewed_session(
    s: LocalSession,
    prior: LocalSession,
    renewed: SessionRenewResponse,
) -> bool {
    &&& s.license_id == prior.license_id
    &&& s.access_token@ == renewed.access_token@
    &&& s.expires_in_sec == renewed.expires_in_sec
    &&& s.binding_epoch == prior.binding_epoch
    &&& s.token_epoch == prior.binding_epoch
}

/// The store holds the session that the activation answer `res` starts.
pub open spec fn holds_activation(stored: Option<LocalSession>, res: ActivateResponse) -> bool {
    match stored {
        Some(s) => is_activation_session(s, res),
        None => false,
    }
}

/// The store's session after the renewal `renewed`: none stays none, and a
/// session is renewed.
pub open spec fn holds_renewal(
    after: Option<LocalSession>,
    before: Option<LocalSession>,
    renewed: SessionRenewResponse,
) -> bool {
    match before {
        None => after is None,
        Some(prior) => match after {
            Some(s) => is_renewed_session(s, prior, renewed),
            None => false,
        },
    }
}

/// The local session that a successful activation starts.
pub fn session_from_activation(res: &ActivateResponse) -> (r: LocalSession)
    ensures
        is_activation_session(r, *res),
{
    LocalSession {
        license_id: res.license_id.clone(),
        access_token: res.access_token.clone(),
        expires_in_sec: res.expires_in_sec,
        binding_epoch: 1,
        token_epoch: 1,
    }
}

/// A stored session after renewal.
pub fn renewed_session(session: LocalSession, renewed: &SessionRenewResponse) -> (r: LocalSession)
    ensures
        is_renewed_session(r, session, *renewed),
{
    LocalSession {
        access_token: renewed.access_token.clone(),
        expires_in_sec: renewed.expires_in_sec,
        token_epoch: session.binding_epoch,
        ..session
    }
}

/// The API's activation answer `answer`, recorded: an error is mapped and
/// nothing is stored; an answer is returned with its session stored, unless
/// the store fails.
pub open spec fn activation_applied(
    answer: Result<ActivateResponse, ApiError>,
    r: Result<ActivateResponse, AuthError>,
    before: Option<LocalSession>,
    after: Option<LocalSession>,
) -> bool {
    match answer {
        Err(e) => r == Err::<ActivateResponse, AuthError>(mapped_api_error(e)) && after == before,
        Ok(res) => {
            &&& r is Ok ==> r == Ok::<ActivateResponse, AuthError>(res) && holds_activation(after, res)
            &&& r matches Err(e) ==> e is Storage
        },
    }
}

/// The API's renewal answer `answer`, recorded: an error is mapped and
/// nothing is stored; an answer is returned, and a stored session renewed,
/// unless the store fails.
pub open spec fn renewal_applied(
    answer: Result<SessionRenewResponse, ApiError>,
    r: Result<SessionRenewResponse, AuthError>,
    before: Option<LocalSession>,
    after: Option<LocalSession>,
) -> bool {
    match answer {
        Err(e) => r == Err::<SessionRenewResponse, AuthError>(mapped_api_error(e)) && after == before,
        Ok(renewed) => {
            &&& before is None ==> r == Ok::<SessionRenewResponse, AuthError>(renewed)
            &&& r is Ok ==> r == Ok::<SessionRenewResponse, AuthError>(renewed) && holds_renewal(
                after,
                before,
                renewed,
            )
            &&& r matches Err(e) ==> e is Storage
        },
    }
}

/// Records the API's answer to an activation: an error is mapped and nothing
/// is stored; an answer starts a new local session.
pub fn apply_activation<S: LocalStore>(
    store: &mut S,
    outcome: Result<ActivateResponse, ApiError>,
) -> (r: Result<ActivateResponse, AuthError>)
    ensures
        final(store).stored_reset_request_id() == old(store).stored_reset_request_id(),
        outcome matches Err(e) ==> r == Err::<ActivateResponse, AuthError>(mapped_api_error(e))
            && final(store).stored_session() == old(store).stored_session(),
        outcome matches Ok(res) ==> (r is Ok ==> r == Ok::<ActivateResponse, AuthError>(res)
            && holds_activation(final(store).stored_session(), res)),
        outcome is Ok ==> (r matches Err(e) ==> e is Storage),
        activation_applied(outcome, r, old(store).stored_session(), final(store).stored_session()),
{
    let res = match outcome {
        Ok(res) => res,
        Err(e) => {
            return Err(map_api_error(e));
        },
    };
    let session = session_from_activation(&res);
    match store.save_session(session) {
        Ok(()) => Ok(res),
        Err(e) => Err(AuthError::Storage(e)),
    }
}

/// Activates the license with the API and stores the session it starts.
pub fn activate<A: ApiClient, S: LocalStore>(
    api: &A,
    store: &mut S,
    req: &ActivateRequest,
    idempotency_key: &str,
) -> (r: Result<ActivateResponse, AuthError>)
    ensures
        final(store).stored_reset_request_id() == old(store).stored_reset_request_id(),
        r matches Ok(res) ==> holds_activation(final(store).stored_session(), res),
        r matches Err(e) && !(e is Storage) ==> final(store).stored_session() == old(store).stored_session(),
        exists|a: Result<ActivateResponse, ApiError>| #[trigger]
            api.may_answer_activation(*req, idempotency_key, a) && activation_applied(
                a,
                r,
                old(store).stored_session(),
                final(store).stored_session(),
            ),
{
    let outcome = api.activate(req, idempotency_key);
    let ghost a = outcome;
    let r = apply_activation(store, outcome);
    assert(api.may_answer_activation(*req, idempotency_key, a));
    r
}

/// Records the API's answer to a renewal: an error is mapped and nothing is
/// stored; an answer renews the stored session, if there is one.
pub fn apply_renewal<S: LocalStore>(
    store: &mut S,
    outcome: Result<SessionRenewResponse, ApiError>,
) -> (r: Result<SessionRenewResponse, AuthError>)
    ensures
        final(store).stored_reset_request_id() == old(store).stored_reset_request_id(),
        outcome matches Err(e) ==> r == Err::<SessionRenewResponse, AuthError>(
            mapped_api_error(e),
        ) && final(store).stored_session() == old(store).stored_session(),
        outcome matches Ok(renewed) ==> (old(store).stored_session() is None ==> r == Ok::<
            SessionRenewResponse,
            AuthError,
        >(renewed)),
        outcome matches Ok(renewed) ==> (r is Ok ==> r == Ok::<SessionRenewResponse, AuthError>(
            renewed,
        ) && holds_renewal(final(store).stored_session(), old(store).stored_session(), renewed)),
        outcome is Ok ==> (r matches Err(e) ==> e is Storage),
        renewal_applied(outcome, r, old(store).stored_session(), final(store).stored_session()),
{
    let renewed = match outcome {
        Ok(r) => r,
        Err(e) => {
            return Err(map_api_error(e));
        },
    };
    if let Some(session) = store.load_session() {
        let updated = renewed_session(session, &renewed);
        if let Err(e) = store.save_session(updated) {
            return Err(AuthError::Storage(e));
        }
    }
    Ok(renewed)
}

/// Renews the session's token with the API and records the renewal.
pub fn renew<A: ApiClient, S: LocalStore>(api: &A, store: &mut S, access_token: &str) -> (r:
    Result<SessionRenewResponse, AuthError>)
    ensures
        final(store).stored_reset_request_id() == old(store).stored_reset_request_id(),
        r matches Ok(renewed) ==> holds_renewal(
            final(store).stored_session(),
            old(store).stored_session(),
            renewed,
        ),
        r matches Err(e) && !(e is Storage) ==> final(store).stored_session() == old(store).stored_session(),
        exists|a: Result<SessionRenewResponse, ApiError>| #[trigger]
            api.may_answer_renewal(access_token, a) && renewal_applied(
                a,
                r,
                old(store).stored_session(),
                final(store).stored_session(),
            ),
{
    let outcome = api.renew_session(access_token);
    let ghost a = outcome;
    let r = apply_renewal(store, outcome);
    assert(api.may_answer_renewal(access_token, a));
    r
}

/// The error an API error becomes: the license and session codes keep their
/// meaning, every other code is a remote error with the API's message.
pub open spec fn mapped_api_error(e: ApiError) -> AuthError {
    match e.error.code {
        ErrorCode::LicenseInvalid => AuthError::LicenseInvalid,
        ErrorCode::LicenseRevoked => AuthError::LicenseRevoked,
        ErrorCode::LicenseSuspended => AuthError::LicenseSuspended,
        ErrorCode::LicenseAlreadyBound => AuthError::LicenseAlreadyBound,
        ErrorCode::SessionReauthRequired => AuthError::SessionReauthRequired,
        _ => AuthError::Remote(e.error.message),
    }
}

pub fn map_api_error(e: ApiError) -> (r: AuthError)
    ensures
        r == mapped_api_error(e),
{
    match e.error.code {
        ErrorCode::LicenseInvalid => AuthError::LicenseInvalid,
        ErrorCode::LicenseRevoked => AuthError::LicenseRevoked,
        ErrorCode::LicenseSuspended => AuthError::LicenseSuspended,
        ErrorCode::LicenseAlreadyBound => AuthError::LicenseAlreadyBound,
        ErrorCode::SessionReauthRequired => AuthError::SessionReauthRequired,
        _ => AuthError::Remote(e.error.message),
    }
}

/// Each license and session code of the API becomes the error of the same
/// name, and only that code does; every other code is a remote error with
/// the API's message.
pub proof fn law_api_codes_keep_their_meaning(e: ApiError)
    ensures
        (mapped_api_error(e) == AuthError::LicenseInvalid) == (e.error.code
            == ErrorCode::LicenseInvalid),
        (mapped_api_error(e) == AuthError::LicenseRevoked) == (e.error.code
            == ErrorCode::LicenseRevoked),
        (mapped_api_error(e) == AuthError::LicenseSuspended) == (e.error.code
            == ErrorCode::LicenseSuspended),
        (mapped_api_error(e) == AuthError::LicenseAlreadyBound) == (e.error.code
            == ErrorCode::LicenseAlreadyBound),
        (mapped_api_error(e) == AuthError::SessionReauthRequired) == (e.error.code
            == ErrorCode::SessionReauthRequired),
        mapped_api_error(e) is Remote ==> mapped_api_error(e) == AuthError::Remote(
            e.error.message,
        ),
        e.error.code != ErrorCode::LicenseInvalid && e.error.code != ErrorCode::LicenseRevoked
            && e.error.code != ErrorCode::LicenseSuspended && e.error.code
            != ErrorCode::LicenseAlreadyBound && e.error.code != ErrorCode::SessionReauthRequired
            ==> mapped_api_error(e) == AuthError::Remote(e.error.message),
        !(mapped_api_error(e) is Storage),
{
}

} // verus!
