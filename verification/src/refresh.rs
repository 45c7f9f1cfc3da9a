//! The refresh coordinator: validates a presented refresh token, proves it
//! is bound to the access token being renewed by looking the exact pair up,
//! issues a fresh pair for the session's subject, and rotates the session
//! row in one step. A missing binding and a lost rotation race both surface
//! as `Invalid`, forcing a fresh login.

use vstd::prelude::*;

use crate::config::{AuthConfig, AuthConfigV};
use crate::errors::{CodecError, RefreshError};
use crate::jwt::{decode_of, generate_jwt, issued_token, token_expiry, validate_refresh_token};
use crate::models::SessionV;
use crate::store::{
    has_pair, lemma_token_index_unique, pair_index, refresh_taken_elsewhere, token_taken_elsewhere,
    SessionStore, StoreV,
};

verus! {

/// What a refresh decides, and the store it leaves behind: reject an
/// undecodable refresh token as `Invalid` and a stale one as `Expired`;
/// demand a session binding exactly the presented pair; then replace both
/// tokens of that row with the pair issued for the token's subject — unless
/// a fresh token value collides with another row, which loses as `Invalid`
/// with the store untouched.
pub open spec fn refresh_model(
    cfg: AuthConfigV,
    token: Seq<char>,
    refresh_token: Seq<char>,
    now: u64,
    store: StoreV,
) -> (Result<(Seq<char>, Seq<char>), RefreshError>, StoreV) {
    match decode_of(refresh_token, cfg.jwt_secret_x) {
        None => (Err(RefreshError::Invalid), store),
        Some(c) => {
            if c.1 < now {
                (Err(RefreshError::Expired), store)
            } else if !has_pair(store.sessions, token, refresh_token) {
                (Err(RefreshError::Invalid), store)
            } else {
                let i = pair_index(store.sessions, token, refresh_token);
                let new_token = issued_token(cfg, c.0, false, now);
                let new_refresh = issued_token(cfg, c.0, true, now);
                if token_taken_elsewhere(store.sessions, i, new_token) || refresh_taken_elsewhere(
                    store.sessions,
                    i,
                    new_refresh,
                ) {
                    (Err(RefreshError::Invalid), store)
                } else {
                    (
                        Ok((new_token, new_refresh)),
                        StoreV {
                            sessions: store.sessions.update(
                                i,
                                SessionV {
                                    id: store.sessions[i].id,
                                    user_id: store.sessions[i].user_id,
                                    token: new_token,
                                    refresh_token: new_refresh,
                                    expires_at: token_expiry(cfg, false, now) as u64,
                                    created_at: store.sessions[i].created_at,
                                },
                            ),
                            next_id: store.next_id,
                        },
                    )
                }
            }
        },
    }
}

/// Renews a token pair, exactly as [`refresh_model`] describes.
pub fn refresh_tokens(
    cfg: &AuthConfig,
    token: &str,
    refresh_token: &str,
    now: u64,
    store: &mut SessionStore,
) -> (r: Result<(String, String), RefreshError>)
    requires
        cfg@.wf(),
        old(store)@.wf(),
        now + cfg@.duration_secs(false) <= u64::MAX,
        now + cfg@.duration_secs(true) <= u64::MAX,
    ensures
        final(store)@.wf(),
        ({
            let m = refresh_model(cfg@, token@, refresh_token@, now, old(store)@);
            &&& r matches Ok(p) ==> m.0 matches Ok(q) && p.0@ == q.0 && p.1@ == q.1
            &&& r matches Err(e) ==> m.0 == Err::<(Seq<char>, Seq<char>), RefreshError>(e)
            &&& final(store)@ == m.1
        }),
{
    let claims = match validate_refresh_token(cfg, refresh_token, now) {
        Ok(c) => c,
        Err(CodecError::Expired) => {
            return Err(RefreshError::Expired);
        },
        Err(_) => {
            return Err(RefreshError::Invalid);
        },
    };
    let idx = match store.find_by_pair(token, refresh_token) {
        Some(i) => i,
        None => {
            return Err(RefreshError::Invalid);
        },
    };
    proof {
        lemma_token_index_unique(store@.sessions, store@.next_id, idx as int);
    }
    let session_id = store.get(idx).id;
    let new_token = match generate_jwt(cfg, claims.sub.as_str(), false, now) {
        Ok(t) => t,
        Err(_) => {
            proof {
                assert(false);
            }
            return Err(RefreshError::Invalid);
        },
    };
    let new_refresh = match generate_jwt(cfg, claims.sub.as_str(), true, now) {
        Ok(t) => t,
        Err(_) => {
            proof {
                assert(false);
            }
            return Err(RefreshError::Invalid);
        },
    };
    let expires_at = now + cfg.access_token_exp_duration * 60;
    match store.rotate(session_id, new_token.clone(), new_refresh.clone(), expires_at) {
        Ok(()) => Ok((new_token, new_refresh)),
        Err(_) => Err(RefreshError::Invalid),
    }
}

/// A stale pair cannot be replayed: after a successful refresh that changed
/// the access token, presenting the same pair again — at any time still
/// within the refresh token's validity — is rejected with `Invalid`.
pub proof fn lemma_refresh_single_use(
    cfg: AuthConfigV,
    token: Seq<char>,
    refresh_token: Seq<char>,
    sub: Seq<char>,
    exp: u64,
    flag: bool,
    now: u64,
    now2: u64,
    store: StoreV,
)
    requires
        store.wf(),
    ensures
        (decode_of(refresh_token, cfg.jwt_secret_x) == Some((sub, exp, flag)) && now <= exp && now2
            <= exp && refresh_model(cfg, token, refresh_token, now, store).0 is Ok && issued_token(
            cfg,
            sub,
            false,
            now,
        ) != token) ==> refresh_model(
            cfg,
            token,
            refresh_token,
            now2,
            refresh_model(cfg, token, refresh_token, now, store).1,
        ).0 == Err::<(Seq<char>, Seq<char>), RefreshError>(RefreshError::Invalid),
{
    if decode_of(refresh_token, cfg.jwt_secret_x) == Some((sub, exp, flag)) && now <= exp && now2
        <= exp && refresh_model(cfg, token, refresh_token, now, store).0 is Ok && issued_token(
        cfg,
        sub,
        false,
        now,
    ) != token {
        let i = pair_index(store.sessions, token, refresh_token);
        assert(has_pair(store.sessions, token, refresh_token));
        assert(0 <= i < store.sessions.len() && store.sessions[i].token == token);
        let after = refresh_model(cfg, token, refresh_token, now, store).1;
        assert forall|j: int| 0 <= j < after.sessions.len() implies (#[trigger] after.sessions[j]).token
            != token by {
            if j == i {
                assert(after.sessions[j].token == issued_token(cfg, sub, false, now));
            } else {
                assert(after.sessions[j] == store.sessions[j]);
                if store.sessions[j].token == token {
                    assert(!crate::store::distinct_rows(store.sessions[i], store.sessions[j]));
                }
            }
        }
        assert(!has_pair(after.sessions, token, refresh_token));
    }
}

/// Anti-replay: a refresh token that is not bound, together with the
/// presented access token, to any session row is rejected — with `Invalid`
/// whenever the refresh token itself is not stale.
pub proof fn lemma_refresh_requires_bound_pair(
    cfg: AuthConfigV,
    token: Seq<char>,
    refresh_token: Seq<char>,
    now: u64,
    store: StoreV,
)
    ensures
        !has_pair(store.sessions, token, refresh_token) ==> refresh_model(
            cfg,
            token,
            refresh_token,
            now,
            store,
        ).0 is Err,
        (!has_pair(store.sessions, token, refresh_token) && (match decode_of(
            refresh_token,
            cfg.jwt_secret_x,
        ) {
            Some(c) => now <= c.1,
            None => true,
        })) ==> refresh_model(cfg, token, refresh_token, now, store).0 == Err::<
            (Seq<char>, Seq<char>),
            RefreshError,
        >(RefreshError::Invalid),
{
}

} // verus!
