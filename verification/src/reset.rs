//! Password reset: builds the reset credential and the session row that
//! records it. The reset token is an access-kind token for the user; the
//! session row carries no refresh token and expires an hour after issuance.
//! Sending the email and persisting the row belong to the caller.

use vstd::prelude::*;

use crate::config::AuthConfig;
use crate::errors::CodecError;
use crate::jwt::{decode_of, generate_jwt, issued_token, token_expiry};
use crate::models::{NewSession, User};

verus! {

/// Seconds a password-reset credential stays usable.
pub const RESET_TOKEN_LIFETIME_SECS: u64 = 3600;

/// Issues a reset token for the user and the session row to record it.
/// Fails only when a timestamp computation would overflow.
pub fn prepare_password_reset(cfg: &AuthConfig, user: &User, now: u64) -> (r: Result<
    NewSession,
    CodecError,
>)
    requires
        cfg@.wf(),
    ensures
        (r is Ok) <==> (token_expiry(cfg@, false, now) <= u64::MAX && now
            + RESET_TOKEN_LIFETIME_SECS <= u64::MAX),
        r matches Ok(ns) ==> ns.user_id == user.id && ns.token@ == issued_token(
            cfg@,
            user.username@,
            false,
            now,
        ) && decode_of(ns.token@, cfg@.jwt_secret) == Some(
            (user.username@, token_expiry(cfg@, false, now) as u64, false),
        ) && ns.refresh_token@ == Seq::<char>::empty() && ns.expires_at == now
            + RESET_TOKEN_LIFETIME_SECS,
        r matches Err(e) ==> e == CodecError::TimestampOverflow,
{
    let token = match generate_jwt(cfg, user.username.as_str(), false, now) {
        Ok(t) => t,
        Err(e) => {
            return Err(e);
        },
    };
    match now.checked_add(RESET_TOKEN_LIFETIME_SECS) {
        Some(expires_at) => Ok(
            NewSession { user_id: user.id, token, refresh_token: String::new(), expires_at },
        ),
        None => Err(CodecError::TimestampOverflow),
    }
}

} // verus!
