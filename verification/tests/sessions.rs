use auth_core::config::AuthConfig;
use auth_core::errors::{RefreshError, StoreError};
use auth_core::middleware::{auth_middleware, AuthzOutcome};
use auth_core::jwt::generate_jwt;
use auth_core::models::NewSession;
use auth_core::oauth::{primary_email, EmailEntry};
use auth_core::refresh::refresh_tokens;
use auth_core::reset::prepare_password_reset;
use auth_core::store::SessionStore;
use auth_core::validate::{invalidate_token, validate_jwt, ValidateOutcome};

fn sessions_cfg() -> AuthConfig {
    AuthConfig::new(
        String::from("access-secret"),
        String::from("refresh-secret"),
        15,
        240,
        1,
    )
    .unwrap()
}

// a config whose access tokens expire the moment they are issued
fn instant_expiry_cfg() -> AuthConfig {
    AuthConfig::new(
        String::from("access-secret"),
        String::from("refresh-secret"),
        0,
        240,
        1,
    )
    .unwrap()
}

fn seeded_session(cfg: &AuthConfig, store: &mut SessionStore, sub: &str, now: u64) -> (String, String) {
    let token = generate_jwt(cfg, sub, false, now).unwrap();
    let refresh_token = generate_jwt(cfg, sub, true, now).unwrap();
    let row = NewSession {
        user_id: 7,
        token: token.clone(),
        refresh_token: refresh_token.clone(),
        expires_at: now + 15 * 60,
    };
    store.create(row, now).unwrap();
    (token, refresh_token)
}

#[test]
fn store_create_assigns_increasing_ids() {
    let cfg = sessions_cfg();
    let mut store = SessionStore::new();
    let (t1, _) = seeded_session(&cfg, &mut store, "alice", 1000);
    let (t2, _) = seeded_session(&cfg, &mut store, "bob", 1000);
    assert_eq!(store.len(), 2);
    let i1 = store.find_by_access_token(t1.as_str()).unwrap();
    let i2 = store.find_by_access_token(t2.as_str()).unwrap();
    assert_eq!(store.get(i1).id, 1);
    assert_eq!(store.get(i2).id, 2);
}

#[test]
fn store_rejects_duplicate_token() {
    let cfg = sessions_cfg();
    let mut store = SessionStore::new();
    let (token, refresh_token) = seeded_session(&cfg, &mut store, "alice", 1000);
    let dup = NewSession {
        user_id: 9,
        token,
        refresh_token,
        expires_at: 2000,
    };
    assert_eq!(store.create(dup, 1000).unwrap_err(), StoreError::PersistenceError);
    assert_eq!(store.len(), 1);
}

#[test]
fn store_rotate_missing_row_conflicts() {
    let mut store = SessionStore::new();
    let r = store.rotate(42, String::from("a"), String::from("b"), 100);
    assert_eq!(r.unwrap_err(), StoreError::Conflict);
}

#[test]
fn store_delete_is_idempotent() {
    let cfg = sessions_cfg();
    let mut store = SessionStore::new();
    let (token, _) = seeded_session(&cfg, &mut store, "alice", 1000);
    store.delete_by_access_token(token.as_str());
    assert_eq!(store.len(), 0);
    store.delete_by_access_token(token.as_str());
    assert_eq!(store.len(), 0);
}

#[test]
fn validate_accepts_live_session() {
    let cfg = sessions_cfg();
    let mut store = SessionStore::new();
    let (token, _) = seeded_session(&cfg, &mut store, "alice", 1000);
    match validate_jwt(&cfg, token.as_str(), 1060, &store) {
        ValidateOutcome::Valid(c) => {
            assert_eq!(c.sub, "alice");
            assert!(!c.refresh);
        },
        _ => panic!("expected a valid token"),
    }
}

#[test]
fn validate_rejects_unknown_session() {
    let cfg = sessions_cfg();
    let store = SessionStore::new();
    let token = generate_jwt(&cfg, "alice", false, 1000).unwrap();
    assert!(matches!(
        validate_jwt(&cfg, token.as_str(), 1060, &store),
        ValidateOutcome::Invalid
    ));
}

#[test]
fn validate_reports_expiry_not_invalidity() {
    let cfg = sessions_cfg();
    let mut store = SessionStore::new();
    let (token, _) = seeded_session(&cfg, &mut store, "alice", 1000);
    // past the lifetime the session is still on record, yet the answer must
    // be the expiry signal, never the unauthorised one
    match validate_jwt(&cfg, token.as_str(), 1000 + 15 * 60 + 1, &store) {
        ValidateOutcome::ExpiredToken(c) => assert_eq!(c.sub, "alice"),
        _ => panic!("expected the expiry signal"),
    }
}

#[test]
fn logout_revokes_token_with_valid_signature() {
    let cfg = sessions_cfg();
    let mut store = SessionStore::new();
    let (token, _) = seeded_session(&cfg, &mut store, "alice", 1000);
    invalidate_token(&mut store, token.as_str());
    // the signature still verifies and the expiry lies ahead, but the
    // session is gone
    assert!(matches!(
        validate_jwt(&cfg, token.as_str(), 1060, &store),
        ValidateOutcome::Invalid
    ));
}

#[test]
fn refresh_rotates_pair_once() {
    let cfg = sessions_cfg();
    let mut store = SessionStore::new();
    let (token, refresh_token) = seeded_session(&cfg, &mut store, "alice", 1000);
    let (new_token, new_refresh) =
        refresh_tokens(&cfg, token.as_str(), refresh_token.as_str(), 2000, &mut store).unwrap();
    assert!(new_token != token);
    assert!(new_refresh != refresh_token);
    assert_eq!(store.len(), 1);
    let idx = store.find_by_access_token(new_token.as_str()).unwrap();
    let row = store.get(idx);
    assert_eq!(row.id, 1);
    assert_eq!(row.user_id, 7);
    assert_eq!(row.expires_at, 2000 + 15 * 60);
    // the stale pair loses from here on
    let replay = refresh_tokens(&cfg, token.as_str(), refresh_token.as_str(), 2001, &mut store);
    assert_eq!(replay.unwrap_err(), RefreshError::Invalid);
}

#[test]
fn refresh_rejects_unbound_pair() {
    let cfg = sessions_cfg();
    let mut store = SessionStore::new();
    let (token_a, _refresh_a) = seeded_session(&cfg, &mut store, "alice", 1000);
    let (_token_b, refresh_b) = seeded_session(&cfg, &mut store, "bob", 1001);
    // bob's refresh token is valid in isolation, but it is not bound to
    // alice's access token
    let r = refresh_tokens(&cfg, token_a.as_str(), refresh_b.as_str(), 1500, &mut store);
    assert_eq!(r.unwrap_err(), RefreshError::Invalid);
    assert_eq!(store.len(), 2);
}

#[test]
fn refresh_rejects_stale_refresh_token() {
    let cfg = sessions_cfg();
    let mut store = SessionStore::new();
    let (token, refresh_token) = seeded_session(&cfg, &mut store, "alice", 1000);
    let after_refresh_expiry = 1000 + 240 * 60 + 1;
    let r = refresh_tokens(&cfg, token.as_str(), refresh_token.as_str(), after_refresh_expiry, &mut store);
    assert_eq!(r.unwrap_err(), RefreshError::Expired);
}

#[test]
fn middleware_passes_valid_token_through() {
    let cfg = sessions_cfg();
    let mut store = SessionStore::new();
    let (token, _) = seeded_session(&cfg, &mut store, "alice", 1000);
    match auth_middleware(&cfg, token.as_str(), None, 1060, &mut store) {
        AuthzOutcome::Authorized { subject, rotated } => {
            assert_eq!(subject, "alice");
            assert!(rotated.is_none());
        },
        _ => panic!("expected authorisation"),
    }
}

#[test]
fn middleware_scenario_expired_token_renews_with_refresh_only() {
    // an access token that expires immediately: two seconds later a request
    // presenting it alone is refused, while the same request with the
    // matching refresh credential goes through on a rotated pair
    let cfg = instant_expiry_cfg();
    let mut store = SessionStore::new();
    let issue_at = 1000;
    let token = generate_jwt(&cfg, "alice", false, issue_at).unwrap();
    let refresh_token = generate_jwt(&cfg, "alice", true, issue_at).unwrap();
    let row = NewSession {
        user_id: 7,
        token: token.clone(),
        refresh_token: refresh_token.clone(),
        expires_at: issue_at,
    };
    store.create(row, issue_at).unwrap();
    let later = issue_at + 2;

    let alone = auth_middleware(&cfg, token.as_str(), None, later, &mut store);
    assert!(matches!(alone, AuthzOutcome::Unauthorized));

    let carrier = refresh_token.clone();
    match auth_middleware(&cfg, token.as_str(), Some(&carrier), later, &mut store) {
        AuthzOutcome::Authorized { subject, rotated } => {
            assert_eq!(subject, "alice");
            let (new_token, new_refresh) = rotated.unwrap();
            assert!(new_token != token);
            assert!(new_refresh != refresh_token);
            // both fresh expiries count from the renewal time
            let idx = store.find_by_access_token(new_token.as_str()).unwrap();
            assert_eq!(store.get(idx).expires_at, later);
            let claims = auth_core::jwt::validate_refresh_token(&cfg, new_refresh.as_str(), later)
                .unwrap();
            assert_eq!(claims.exp, later + 240 * 60);
        },
        _ => panic!("expected a renewed authorisation"),
    }
}

#[test]
fn middleware_rejects_forged_token_without_refresh_attempt() {
    let cfg = sessions_cfg();
    let mut store = SessionStore::new();
    let (_, refresh_token) = seeded_session(&cfg, &mut store, "alice", 1000);
    let carrier = refresh_token.clone();
    let r = auth_middleware(&cfg, "forged", Some(&carrier), 1060, &mut store);
    assert!(matches!(r, AuthzOutcome::Unauthorized));
    assert_eq!(store.len(), 1);
}

#[test]
fn reset_session_carries_decodable_token() {
    let cfg = sessions_cfg();
    let user = auth_core::models::User {
        id: 7,
        email: String::from("alice@example.com"),
        username: String::from("alice"),
        password_hash: String::new(),
        full_name: None,
        role: String::from("user"),
        status: String::from("active"),
        login_attempts: 0,
        last_login_at: None,
    };
    let now = 1_700_000_000;
    let row = prepare_password_reset(&cfg, &user, now).unwrap();
    assert_eq!(row.user_id, 7);
    assert_eq!(row.refresh_token, "");
    assert_eq!(row.expires_at, now + 3600);
    let claims = auth_core::jwt::decode_token(&cfg, row.token.as_str(), false, now + 1).unwrap();
    assert_eq!(claims.sub, "alice");
}

#[test]
fn primary_email_takes_first_primary() {
    let entries = vec![
        EmailEntry { email: String::from("first@example.com"), primary: false },
        EmailEntry { email: String::from("second@example.com"), primary: true },
        EmailEntry { email: String::from("third@example.com"), primary: true },
    ];
    assert_eq!(primary_email(&entries).unwrap(), "second@example.com");
}

#[test]
fn primary_email_none_without_primary() {
    let entries = vec![EmailEntry { email: String::from("a@b.c"), primary: false }];
    assert!(primary_email(&entries).is_none());
    assert!(primary_email(&Vec::new()).is_none());
}
