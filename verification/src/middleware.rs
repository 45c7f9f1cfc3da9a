//! The authorisation middleware, run once per request: validate the presented
//! access token; pass a valid one through; on an expired one, attempt a
//! renewal with the refresh credential carried alongside, continuing with
//! the rotated pair on success; reject everything else. Each request
//! re-enters at validation — there is no state beyond the session store.

use vstd::prelude::*;

use crate::config::{AuthConfig, AuthConfigV};
use crate::refresh::{refresh_model, refresh_tokens};
use crate::store::{SessionStore, StoreV};
use crate::validate::{validate_jwt, validate_model, ValidateModel, ValidateOutcome};

verus! {

/// The answer to one request.
pub enum AuthzOutcome {
    /// Proceed downstream as `subject`; when the pair was renewed on the
    /// way, `rotated` carries the new tokens to surface to the caller.
    Authorized { subject: String, rotated: Option<(String, String)> },
    /// Reject the request; all failure detail collapses here.
    Unauthorized,
}

/// The answer as mathematical values.
pub enum AuthzModel {
    Authorized { subject: Seq<char>, rotated: Option<(Seq<char>, Seq<char>)> },
    Unauthorized,
}

impl View for AuthzOutcome {
    type V = AuthzModel;

    open spec fn view(&self) -> AuthzModel {
        match self {
            AuthzOutcome::Authorized { subject, rotated } => AuthzModel::Authorized {
                subject: subject@,
                rotated: match rotated {
                    Some(p) => Some((p.0@, p.1@)),
                    None => None,
                },
            },
            AuthzOutcome::Unauthorized => AuthzModel::Unauthorized,
        }
    }
}

/// The view of the optional refresh credential.
pub open spec fn carrier_view(refresh_token: Option<&String>) -> Option<Seq<char>> {
    match refresh_token {
        Some(rt) => Some(rt@),
        None => None,
    }
}

/// What the middleware decides, and the store it leaves behind: a valid token
/// passes unchanged; an expired one is renewed through the refresh
/// coordinator when a refresh credential is present, authorising the
/// subject of the expired token's own claims; everything else is rejected.
pub open spec fn middleware_model(
    cfg: AuthConfigV,
    token: Seq<char>,
    refresh_token: Option<Seq<char>>,
    now: u64,
    store: StoreV,
) -> (AuthzModel, StoreV) {
    match validate_model(cfg, token, now, store.sessions) {
        ValidateModel::Valid(c) => (
            AuthzModel::Authorized { subject: c.sub, rotated: None },
            store,
        ),
        ValidateModel::ExpiredToken(c) => match refresh_token {
            None => (AuthzModel::Unauthorized, store),
            Some(rt) => {
                let m = refresh_model(cfg, token, rt, now, store);
                match m.0 {
                    Ok(p) => (AuthzModel::Authorized { subject: c.sub, rotated: Some(p) }, m.1),
                    Err(_) => (AuthzModel::Unauthorized, m.1),
                }
            },
        },
        ValidateModel::Invalid => (AuthzModel::Unauthorized, store),
    }
}

/// Handles one request, exactly as [`middleware_model`] describes.
pub fn auth_middleware(
    cfg: &AuthConfig,
    token: &str,
    refresh_token: Option<&String>,
    now: u64,
    store: &mut SessionStore,
) -> (r: AuthzOutcome)
    requires
        cfg@.wf(),
        old(store)@.wf(),
        now + cfg@.duration_secs(false) <= u64::MAX,
        now + cfg@.duration_secs(true) <= u64::MAX,
    ensures
        final(store)@.wf(),
        ({
            let m = middleware_model(cfg@, token@, carrier_view(refresh_token), now, old(store)@);
            &&& r@ == m.0
            &&& final(store)@ == m.1
        }),
{
    match validate_jwt(cfg, token, now, store) {
        ValidateOutcome::Valid(c) => AuthzOutcome::Authorized { subject: c.sub, rotated: None },
        ValidateOutcome::ExpiredToken(c) => match refresh_token {
            None => AuthzOutcome::Unauthorized,
            Some(rt) => match refresh_tokens(cfg, token, rt.as_str(), now, store) {
                Ok(pair) => AuthzOutcome::Authorized { subject: c.sub, rotated: Some(pair) },
                Err(_) => AuthzOutcome::Unauthorized,
            },
        },
        ValidateOutcome::Invalid => AuthzOutcome::Unauthorized,
    }
}

} // verus!
