//! The login authenticator: evaluates the lockout policy, verifies the
//! password, maintains the attempt counter, and on success issues a token
//! pair and persists a session. The caller supplies the looked-up user row
//! (or `None` when the username is unknown) and receives, besides the
//! outcome, the counter update to persist; user rows themselves are owned by
//! the persistence layer.

use vstd::prelude::*;

use crate::config::{AuthConfig, AuthConfigV};
use crate::errors::StoreError;
use crate::jwt::{generate_jwt, issued_token, token_expiry};
use crate::lockout::{is_account_locked, locked_at};
use crate::models::{NewSession, SessionV, User, UserV};
use crate::password::{password_ok, verify_password};
use crate::store::{has_refresh_token, has_token, SessionStore, StoreV};

verus! {

/// The answer to a login attempt.
pub enum LoginOutcome {
    /// The password verified: a fresh token pair, bound to a new session.
    SessionCreated { token: String, refresh_token: String, session_id: u64 },
    /// The account is locked, or this very failure locked it.
    Locked,
    /// Unknown username or wrong password; the two are not distinguished.
    InvalidCredentials,
    /// The password verified but the new session could not be persisted.
    PersistenceError,
}

/// The answer as mathematical values.
pub enum LoginModel {
    SessionCreated { token: Seq<char>, refresh_token: Seq<char>, session_id: u64 },
    Locked,
    InvalidCredentials,
    PersistenceError,
}

impl View for LoginOutcome {
    type V = LoginModel;

    open spec fn view(&self) -> LoginModel {
        match self {
            LoginOutcome::SessionCreated { token, refresh_token, session_id } => {
                LoginModel::SessionCreated {
                    token: token@,
                    refresh_token: refresh_token@,
                    session_id: *session_id,
                }
            },
            LoginOutcome::Locked => LoginModel::Locked,
            LoginOutcome::InvalidCredentials => LoginModel::InvalidCredentials,
            LoginOutcome::PersistenceError => LoginModel::PersistenceError,
        }
    }
}

/// The attempt-counter update the caller must persist: both fields are
/// always written together.
pub struct UserUpdate {
    pub login_attempts: u16,
    pub last_login_at: u64,
}

/// The view of an optional counter update.
pub open spec fn update_view(u: Option<UserUpdate>) -> Option<(u16, u64)> {
    match u {
        Some(x) => Some((x.login_attempts, x.last_login_at)),
        None => None,
    }
}

/// The view of an optional borrowed user row.
pub open spec fn user_view(u: Option<&User>) -> Option<UserV> {
    match u {
        Some(x) => Some(x@),
        None => None,
    }
}

/// The session row created for a subject logging in at `now`.
pub open spec fn created_session(cfg: AuthConfigV, user_id: u128, subject: Seq<char>, now: u64, id: u64) -> SessionV {
    SessionV {
        id,
        user_id,
        token: issued_token(cfg, subject, false, now),
        refresh_token: issued_token(cfg, subject, true, now),
        expires_at: token_expiry(cfg, false, now) as u64,
        created_at: Some(now),
    }
}

/// What a login attempt decides, and how it changes the user row and the
/// store: `Locked` while the policy says so, touching nothing; on a verified
/// password a counter reset to zero and a new session, unless a token value
/// collides in the store; on a failure an increment of the counter — or a
/// reset to one when a fresh window opens after an elapsed lockout — and
/// `Locked` exactly when the new count has passed three.
pub open spec fn login_model(
    cfg: AuthConfigV,
    user: Option<UserV>,
    password: Seq<char>,
    now: u64,
    store: StoreV,
) -> (LoginModel, Option<(u16, u64)>, StoreV) {
    match user {
        None => (LoginModel::InvalidCredentials, None, store),
        Some(u) => {
            if locked_at(u.login_attempts, u.last_login_at, now, cfg.account_lock_duration) {
                (LoginModel::Locked, None, store)
            } else if password_ok(password, u.password_hash) {
                let row = created_session(cfg, u.id, u.username, now, store.next_id);
                if has_token(store.sessions, row.token) || has_refresh_token(
                    store.sessions,
                    row.refresh_token,
                ) || store.next_id == u64::MAX {
                    (LoginModel::PersistenceError, Some((0u16, now)), store)
                } else {
                    (
                        LoginModel::SessionCreated {
                            token: row.token,
                            refresh_token: row.refresh_token,
                            session_id: store.next_id,
                        },
                        Some((0u16, now)),
                        StoreV {
                            sessions: store.sessions.push(row),
                            next_id: (store.next_id + 1) as u64,
                        },
                    )
                }
            } else {
                let next: u16 = if u.login_attempts > 3 {
                    1u16
                } else {
                    (u.login_attempts + 1) as u16
                };
                let outcome = if next > 3 {
                    LoginModel::Locked
                } else {
                    LoginModel::InvalidCredentials
                };
                (outcome, Some((next, now)), store)
            }
        },
    }
}

/// Issues an access and a refresh token for a subject and persists the
/// session binding them. Shared by password login and by account resolution
/// through an outside identity provider.
pub fn create_session_for_user(
    cfg: &AuthConfig,
    user_id: u128,
    subject: &str,
    now: u64,
    store: &mut SessionStore,
) -> (r: Result<(String, String, u64), StoreError>)
    requires
        cfg@.wf(),
        old(store)@.wf(),
        now + cfg@.duration_secs(false) <= u64::MAX,
        now + cfg@.duration_secs(true) <= u64::MAX,
    ensures
        final(store)@.wf(),
        (r is Ok) <==> (!has_token(
            old(store)@.sessions,
            issued_token(cfg@, subject@, false, now),
        ) && !has_refresh_token(old(store)@.sessions, issued_token(cfg@, subject@, true, now))
            && old(store)@.next_id < u64::MAX),
        r matches Ok(t) ==> t.0@ == issued_token(cfg@, subject@, false, now) && t.1@
            == issued_token(cfg@, subject@, true, now) && t.2 == old(store)@.next_id
            && final(store)@.sessions == old(store)@.sessions.push(
            created_session(cfg@, user_id, subject@, now, old(store)@.next_id),
        ) && final(store)@.next_id == old(store)@.next_id + 1,
        r is Err ==> final(store)@ == old(store)@ && r == Err::<(String, String, u64), StoreError>(
            StoreError::PersistenceError,
        ),
{
    let token = match generate_jwt(cfg, subject, false, now) {
        Ok(t) => t,
        Err(_) => {
            proof {
                assert(false);
            }
            return Err(StoreError::PersistenceError);
        },
    };
    let refresh_token = match generate_jwt(cfg, subject, true, now) {
        Ok(t) => t,
        Err(_) => {
            proof {
                assert(false);
            }
            return Err(StoreError::PersistenceError);
        },
    };
    let expires_at = now + cfg.access_token_exp_duration * 60;
    let row = NewSession {
        user_id,
        token: token.clone(),
        refresh_token: refresh_token.clone(),
        expires_at,
    };
    match store.create(row, now) {
        Ok(id) => Ok((token, refresh_token, id)),
        Err(e) => Err(e),
    }
}

/// Authenticates one login attempt. The caller passes the user row found
/// for the submitted username (or `None`), and receives the outcome together
/// with the counter update to persist, exactly as [`login_model`] describes.
pub fn login(
    cfg: &AuthConfig,
    user: Option<&User>,
    password: &str,
    now: u64,
    store: &mut SessionStore,
) -> (r: (LoginOutcome, Option<UserUpdate>))
    requires
        cfg@.wf(),
        old(store)@.wf(),
        now + cfg@.duration_secs(false) <= u64::MAX,
        now + cfg@.duration_secs(true) <= u64::MAX,
    ensures
        final(store)@.wf(),
        ({
            let m = login_model(cfg@, user_view(user), password@, now, old(store)@);
            &&& r.0@ == m.0
            &&& update_view(r.1) == m.1
            &&& final(store)@ == m.2
        }),
{
    match user {
        None => (LoginOutcome::InvalidCredentials, None),
        Some(u) => {
            if is_account_locked(cfg, u, now) {
                (LoginOutcome::Locked, None)
            } else {
                let matched = match verify_password(password, u.password_hash.as_str()) {
                    Some(true) => true,
                    _ => false,
                };
                if matched {
                    let update = UserUpdate { login_attempts: 0, last_login_at: now };
                    match create_session_for_user(cfg, u.id, u.username.as_str(), now, store) {
                        Ok((token, refresh_token, session_id)) => (
                            LoginOutcome::SessionCreated { token, refresh_token, session_id },
                            Some(update),
                        ),
                        Err(_) => (LoginOutcome::PersistenceError, Some(update)),
                    }
                } else {
                    let next: u16 = if u.login_attempts > 3 {
                        1
                    } else {
                        u.login_attempts + 1
                    };
                    let outcome = if next > 3 {
                        LoginOutcome::Locked
                    } else {
                        LoginOutcome::InvalidCredentials
                    };
                    (outcome, Some(UserUpdate { login_attempts: next, last_login_at: now }))
                }
            }
        },
    }
}

/// A login failure against a user with at most three recorded failures
/// increments the counter by exactly one and stamps the attempt time; it is
/// answered `InvalidCredentials` while the count stays at or below three,
/// and `Locked` on the failure that takes it to four. The store is never
/// touched.
pub proof fn lemma_failed_login_increments(
    cfg: AuthConfigV,
    u: UserV,
    password: Seq<char>,
    now: u64,
    store: StoreV,
)
    ensures
        (u.login_attempts <= 3 && !password_ok(password, u.password_hash)) ==> ({
            let m = login_model(cfg, Some(u), password, now, store);
            &&& m.1 == Some(((u.login_attempts + 1) as u16, now))
            &&& u.login_attempts < 3 ==> m.0 == LoginModel::InvalidCredentials
            &&& u.login_attempts == 3 ==> m.0 == LoginModel::Locked
            &&& m.2 == store
        }),
{
}

/// The fourth consecutive failure locks the account, and a correct password
/// submitted while the lock window is still open is answered `Locked`
/// without touching the counter or the store.
pub proof fn lemma_lock_window_rejects_correct_password(
    cfg: AuthConfigV,
    u: UserV,
    u2: UserV,
    wrong: Seq<char>,
    correct: Seq<char>,
    t1: u64,
    t2: u64,
    store: StoreV,
    store2: StoreV,
)
    requires
        u.login_attempts == 3,
        u2.login_attempts == 4,
        u2.last_login_at == Some(t1),
        u2.password_hash == u.password_hash,
        t1 <= t2,
        t2 < t1 + cfg.account_lock_duration * 60,
    ensures
        !password_ok(wrong, u.password_hash) ==> ({
            let m1 = login_model(cfg, Some(u), wrong, t1, store);
            m1.0 == LoginModel::Locked && m1.1 == Some((4u16, t1)) && m1.2 == store
        }),
        password_ok(correct, u2.password_hash) ==> ({
            let m2 = login_model(cfg, Some(u2), correct, t2, store2);
            m2.0 == LoginModel::Locked && m2.1 == None::<(u16, u64)> && m2.2 == store2
        }),
{
}

/// A correct password after the lock window has elapsed succeeds — the
/// counter is reset to zero and the attempt time stamped — and a session is
/// created whenever the store can take the fresh pair.
pub proof fn lemma_unlock_after_window(
    cfg: AuthConfigV,
    u: UserV,
    password: Seq<char>,
    t: u64,
    now: u64,
    store: StoreV,
)
    requires
        u.last_login_at == Some(t),
        now >= t + cfg.account_lock_duration * 60,
    ensures
        password_ok(password, u.password_hash) ==> ({
            let m = login_model(cfg, Some(u), password, now, store);
            &&& m.1 == Some((0u16, now))
            &&& (!has_token(store.sessions, issued_token(cfg, u.username, false, now))
                && !has_refresh_token(store.sessions, issued_token(cfg, u.username, true, now))
                && store.next_id != u64::MAX) ==> m.0 == (LoginModel::SessionCreated {
                token: issued_token(cfg, u.username, false, now),
                refresh_token: issued_token(cfg, u.username, true, now),
                session_id: store.next_id,
            })
        }),
{
}

} // verus!
