//! The lockout policy: a pure decision over a user's attempt counter, the
//! time of the last attempt, the current time and the configured window.
//! An account is locked while more than three consecutive failures are on
//! record and the window since the last attempt has not yet elapsed.

use vstd::prelude::*;

use crate::config::AuthConfig;
use crate::models::User;

verus! {

/// The lockout decision: locked exactly when the counter has passed three,
/// a last attempt is on record, and less than the window has passed since it
/// (a last attempt recorded in the future also counts as within the window).
pub open spec fn locked_at(attempts: u16, last: Option<u64>, now: u64, lock_minutes: u64) -> bool {
    &&& attempts > 3
    &&& match last {
        Some(t) => now < t + lock_minutes * 60,
        None => false,
    }
}

/// Evaluates the lockout policy for a user at time `now`.
pub fn is_account_locked(cfg: &AuthConfig, user: &User, now: u64) -> (r: bool)
    requires
        cfg@.wf(),
    ensures
        r == locked_at(user.login_attempts, user.last_login_at, now, cfg@.account_lock_duration),
{
    if user.login_attempts > 3 {
        match user.last_login_at {
            Some(t) => t > now || now - t < cfg.account_lock_duration * 60,
            None => false,
        }
    } else {
        false
    }
}

} // verus!
