//! Operator login by challenge and signature.

use super::adapters::{AdminApi, SessionStore};
use crate::modules::shared_contracts::dto::{
    AdminAuthChallengeRequest, AdminAuthChallengeResponse, AdminAuthVerifyRequest,
    AdminAuthVerifyResponse,
};
use crate::modules::shared_contracts::errors::ApiError;
use vstd::prelude::*;

verus! {

#[derive(Debug, PartialEq, Eq)]
pub struct AuthSession {
    pub operator_id: String,
    pub admin_access_token: String,
    pub expires_in_sec: u64,
    pub scopes: Vec<String>,
}

/// `a` and `b` hold the same operator, token, expiry and scopes.
pub open spec fn same_session(a: AuthSession, b: AuthSession) -> bool {
    &&& a.operator_id == b.operator_id
    &&& a.admin_access_token == b.admin_access_token
    &&& a.expires_in_sec == b.expires_in_sec
    &&& a.scopes@ == b.scopes@
}

/// The store holds a session the same as `s`.
pub open spec fn holds_session(saved: Option<AuthSession>, s: AuthSession) -> bool {
    match saved {
        Some(x) => same_session(x, s),
        None => false,
    }
}

impl Clone for AuthSession {
    fn clone(&self) -> (r: Self)
        ensures
            same_session(r, *self),
    {
        let scopes = self.scopes.clone();
        assert(scopes@ =~= self.scopes@);
        AuthSession {
            operator_id: self.operator_id.clone(),
            admin_access_token: self.admin_access_token.clone(),
            expires_in_sec: self.expires_in_sec,
            scopes,
        }
    }
}

#[derive(Debug, PartialEq, Eq)]
pub enum AuthError {
    Remote(String),
    Storage(String),
}

/// The session an operator gets from a verified challenge.
pub fn session_from_verified(operator_id: &str, verified: AdminAuthVerifyResponse) -> (r:
    AuthSession)
    ensures
        r.operator_id@ == operator_id@,
        r.admin_access_token == verified.admin_access_token,
        r.expires_in_sec == verified.expires_in_sec,
        r.scopes == verified.scopes,
{
    AuthSession {
        operator_id: String::from_str(operator_id),
        admin_access_token: verified.admin_access_token,
        expires_in_sec: verified.expires_in_sec,
        scopes: verified.scopes,
    }
}

/// The answer to a signature check, recorded: an error is reported by its
/// message and nothing is saved; a verified answer becomes the operator's
/// session, saved and returned unless the store fails.
pub open spec fn login_finished(
    verified: Result<AdminAuthVerifyResponse, ApiError>,
    operator_id: Seq<char>,
    r: Result<AuthSession, AuthError>,
    before: Option<AuthSession>,
    after: Option<AuthSession>,
) -> bool {
    match verified {
        Err(e) => r == Err::<AuthSession, AuthError>(AuthError::Remote(e.error.message)) && after
            == before,
        Ok(v) => {
            &&& r matches Ok(s) ==> (s.operator_id@ == operator_id && s.admin_access_token
                == v.admin_access_token && s.expires_in_sec == v.expires_in_sec && s.scopes
                == v.scopes && holds_session(after, s))
            &&& r matches Err(e) ==> e is Storage
        },
    }
}

/// A login after the answer `challenge` to its challenge request: an error
/// is reported by its message and nothing is saved; otherwise the signature
/// check is asked with the operator, the challenge's identifier and the
/// signature, and its answer is recorded by [`login_finished`].
pub open spec fn login_outcome<A: AdminApi>(
    api: A,
    operator_id: Seq<char>,
    signature: Seq<char>,
    challenge: Result<AdminAuthChallengeResponse, ApiError>,
    r: Result<AuthSession, AuthError>,
    before: Option<AuthSession>,
    after: Option<AuthSession>,
) -> bool {
    match challenge {
        Err(e) => r == Err::<AuthSession, AuthError>(AuthError::Remote(e.error.message)) && after
            == before,
        Ok(ch) => exists|q: AdminAuthVerifyRequest, v: Result<AdminAuthVerifyResponse, ApiError>|
            #[trigger] api.may_answer_verify(q, v) && q.operator_id@ == operator_id
                && q.challenge_id == ch.challenge_id && q.signature@ == signature
                && login_finished(v, operator_id, r, before, after),
    }
}

/// Records the answer to a signature check: an error is reported by its
/// message and nothing is saved; a verified answer becomes the operator's
/// session, which is saved and returned.
pub fn finish_login<S: SessionStore>(
    store: &mut S,
    operator_id: &str,
    verified: Result<AdminAuthVerifyResponse, ApiError>,
) -> (r: Result<AuthSession, AuthError>)
    ensures
        verified matches Err(e) ==> r == Err::<AuthSession, AuthError>(
            AuthError::Remote(e.error.message),
        ) && final(store).saved() == old(store).saved(),
        verified matches Ok(v) ==> (r matches Ok(s) ==> {
            &&& s.operator_id@ == operator_id@
            &&& s.admin_access_token == v.admin_access_token
            &&& s.expires_in_sec == v.expires_in_sec
            &&& s.scopes == v.scopes
            &&& holds_session(final(store).saved(), s)
        }),
        verified is Ok ==> (r matches Err(e) ==> e is Storage),
        login_finished(verified, operator_id@, r, old(store).saved(), final(store).saved()),
{
    let verified = match verified {
        Ok(v) => v,
        Err(e) => {
            return Err(AuthError::Remote(e.error.message));
        },
    };
    let session = session_from_verified(operator_id, verified);
    match store.save_session(session.clone()) {
        Ok(()) => Ok(session),
        Err(e) => Err(AuthError::Storage(e)),
    }
}

/// The signature check a login asks for, from the answer to its challenge
/// request: an error is reported by its message; a challenge is checked with
/// the operator, the challenge's identifier and the signature.
pub fn verify_request_for(
    operator_id: &str,
    signature: &str,
    challenge: Result<AdminAuthChallengeResponse, ApiError>,
) -> (r: Result<AdminAuthVerifyRequest, AuthError>)
    ensures
        challenge matches Err(e) ==> r == Err::<AdminAuthVerifyRequest, AuthError>(
            AuthError::Remote(e.error.message),
        ),
        challenge matches Ok(ch) ==> (r matches Ok(q) && q.operator_id@ == operator_id@
            && q.challenge_id == ch.challenge_id && q.signature@ == signature@),
{
    match challenge {
        Ok(ch) => Ok(
            AdminAuthVerifyRequest {
                operator_id: String::from_str(operator_id),
                challenge_id: ch.challenge_id,
                signature: String::from_str(signature),
            },
        ),
        Err(e) => Err(AuthError::Remote(e.error.message)),
    }
}

/// Asks for a challenge, has the signature verified, and saves the session.
pub fn login_with_challenge<A: AdminApi, S: SessionStore>(
    api: &A,
    store: &mut S,
    operator_id: &str,
    signature: &str,
) -> (r: Result<AuthSession, AuthError>)
    ensures
        r matches Ok(s) ==> s.operator_id@ == operator_id@ && holds_session(final(store).saved(), s),
        r matches Err(AuthError::Remote(_)) ==> final(store).saved() == old(store).saved(),
        exists|q: AdminAuthChallengeRequest, c: Result<AdminAuthChallengeResponse, ApiError>|
            #[trigger] api.may_answer_challenge(q, c) && q.operator_id@ == operator_id@
                && login_outcome(
                *api,
                operator_id@,
                signature@,
                c,
                r,
                old(store).saved(),
                final(store).saved(),
            ),
{
    let challenge_request = AdminAuthChallengeRequest { operator_id: String::from_str(operator_id) };
    let challenge = api.get_challenge(&challenge_request);
    let ghost c = challenge;
    let request = match verify_request_for(operator_id, signature, challenge) {
        Ok(q) => q,
        Err(e) => {
            assert(api.may_answer_challenge(challenge_request, c));
            return Err(e);
        },
    };
    let verified = api.verify_challenge(&request);
    let ghost v = verified;
    let r = finish_login(store, operator_id, verified);
    assert(api.may_answer_verify(request, v));
    assert(login_outcome(*api, operator_id@, signature@, c, r, old(store).saved(), store.saved()));
    assert(api.may_answer_challenge(challenge_request, c));
    r
}

} // verus!
