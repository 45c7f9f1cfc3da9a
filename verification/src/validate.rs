//! The token validator: verifies a presented access token's signature and
//! expiry and confirms the session store still holds it. The store check is
//! the revocation mechanism — a token whose signature verifies is still
//! rejected once its session was deleted or rotated away. An expired token
//! is reported distinctly, claims included, so that the middleware can attempt a
//! refresh; that distinction never reaches a client.

use vstd::prelude::*;

use crate::config::{AuthConfig, AuthConfigV};
use crate::jwt::{decode_of, jwt_decode, Claims, ClaimsV, RawDecode};
use crate::models::SessionV;
use crate::store::{has_token, token_index, SessionStore};

verus! {

/// The validator's answer.
pub enum ValidateOutcome {
    /// Signature and expiry check out and the session is still on record.
    Valid(Claims),
    /// The claims decoded but the expiry lies before the supplied time; the
    /// stale claims are handed along for the refresh path.
    ExpiredToken(Claims),
    /// Bad signature, malformed token, or no session on record.
    Invalid,
}

/// The validator's answer as mathematical values.
pub enum ValidateModel {
    Valid(ClaimsV),
    ExpiredToken(ClaimsV),
    Invalid,
}

impl View for ValidateOutcome {
    type V = ValidateModel;

    open spec fn view(&self) -> ValidateModel {
        match self {
            ValidateOutcome::Valid(c) => ValidateModel::Valid(c@),
            ValidateOutcome::ExpiredToken(c) => ValidateModel::ExpiredToken(c@),
            ValidateOutcome::Invalid => ValidateModel::Invalid,
        }
    }
}

/// What validation decides: decode under the access secret, report `Expired`
/// on a stale expiry, otherwise demand presence in the store.
pub open spec fn validate_model(
    cfg: AuthConfigV,
    token: Seq<char>,
    now: u64,
    sessions: Seq<SessionV>,
) -> ValidateModel {
    match decode_of(token, cfg.jwt_secret) {
        Some(c) => {
            if c.1 < now {
                ValidateModel::ExpiredToken(ClaimsV { sub: c.0, exp: c.1, refresh: c.2 })
            } else if has_token(sessions, token) {
                ValidateModel::Valid(ClaimsV { sub: c.0, exp: c.1, refresh: c.2 })
            } else {
                ValidateModel::Invalid
            }
        },
        None => ValidateModel::Invalid,
    }
}

/// Validates an access token at time `now` against the session store.
pub fn validate_jwt(cfg: &AuthConfig, token: &str, now: u64, store: &SessionStore) -> (r:
    ValidateOutcome)
    ensures
        r@ == validate_model(cfg@, token@, now, store@.sessions),
{
    match jwt_decode(token, cfg.jwt_secret.as_str()) {
        RawDecode::Decoded { sub, exp, refresh } => {
            let claims = Claims { sub, exp, refresh };
            if exp < now {
                ValidateOutcome::ExpiredToken(claims)
            } else if store.find_by_access_token(token).is_some() {
                ValidateOutcome::Valid(claims)
            } else {
                ValidateOutcome::Invalid
            }
        },
        _ => ValidateOutcome::Invalid,
    }
}

/// Deletes the session holding this access token, invalidating the token
/// pair bound to it; idempotent.
pub fn invalidate_token(store: &mut SessionStore, token: &str)
    requires
        old(store)@.wf(),
    ensures
        final(store)@.wf(),
        final(store)@.next_id == old(store)@.next_id,
        !has_token(old(store)@.sessions, token@) ==> final(store)@.sessions == old(
            store,
        )@.sessions,
        has_token(old(store)@.sessions, token@) ==> final(store)@.sessions == old(
            store,
        )@.sessions.remove(token_index(old(store)@.sessions, token@)),
        !has_token(final(store)@.sessions, token@),
{
    store.delete_by_access_token(token);
}

/// An access token presented after its expiry is reported `ExpiredToken`,
/// never `Invalid`, whatever the session store holds. The hypothesis on
/// `decode_of` holds of every token `generate_jwt` issues, by its ensures.
pub proof fn lemma_expired_token_reports_expired(
    cfg: AuthConfigV,
    token: Seq<char>,
    sub: Seq<char>,
    exp: u64,
    flag: bool,
    now: u64,
    sessions: Seq<SessionV>,
)
    ensures
        (decode_of(token, cfg.jwt_secret) == Some((sub, exp, flag)) && exp < now)
            ==> validate_model(cfg, token, now, sessions) == ValidateModel::ExpiredToken(
            ClaimsV { sub, exp, refresh: flag },
        ),
{
}

/// Logout revokes: once no session row holds the token, validation reports
/// `Invalid`, even though the token's signature still verifies and its
/// expiry lies ahead.
pub proof fn lemma_revoked_token_is_invalid(
    cfg: AuthConfigV,
    token: Seq<char>,
    sub: Seq<char>,
    exp: u64,
    flag: bool,
    now: u64,
    sessions: Seq<SessionV>,
)
    ensures
        (decode_of(token, cfg.jwt_secret) == Some((sub, exp, flag)) && exp >= now && !has_token(
            sessions,
            token,
        )) ==> validate_model(cfg, token, now, sessions) == ValidateModel::Invalid,
{
}

} // verus!
