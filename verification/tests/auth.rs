use auth_core::config::AuthConfig;
use auth_core::login::{login, LoginOutcome};
use auth_core::models::User;
use auth_core::register::{register, RegisterError, RegisterRequest};
use auth_core::store::SessionStore;

fn auth_cfg() -> AuthConfig {
    // one-minute lock window, as in the lockout scenario
    AuthConfig::new(
        String::from("access-secret"),
        String::from("refresh-secret"),
        15,
        240,
        1,
    )
    .unwrap()
}

fn alice(password_hash: String) -> User {
    User {
        id: 7,
        email: String::from("alice@example.com"),
        username: String::from("alice"),
        password_hash,
        full_name: None,
        role: String::from("user"),
        status: String::from("active"),
        login_attempts: 0,
        last_login_at: None,
    }
}

fn hash_of(password: &str) -> String {
    let req = RegisterRequest {
        username: String::from("alice"),
        password: String::from(password),
        email: String::from("alice@example.com"),
    };
    register(&req).unwrap().password_hash
}

#[test]
fn unknown_user_is_invalid_credentials() {
    let cfg = auth_cfg();
    let mut store = SessionStore::new();
    let (outcome, update) = login(&cfg, None, "whatever", 1000, &mut store);
    assert!(matches!(outcome, LoginOutcome::InvalidCredentials));
    assert!(update.is_none());
    assert_eq!(store.len(), 0);
}

#[test]
fn failed_login_increments_counter() {
    let cfg = auth_cfg();
    let mut store = SessionStore::new();
    let user = alice(hash_of("correct horse"));
    let (outcome, update) = login(&cfg, Some(&user), "wrong", 1000, &mut store);
    assert!(matches!(outcome, LoginOutcome::InvalidCredentials));
    let update = update.unwrap();
    assert_eq!(update.login_attempts, 1);
    assert_eq!(update.last_login_at, 1000);
    assert_eq!(store.len(), 0);
}

#[test]
fn successful_login_creates_session_and_resets_counter() {
    let cfg = auth_cfg();
    let mut store = SessionStore::new();
    let mut user = alice(hash_of("correct horse"));
    user.login_attempts = 2;
    user.last_login_at = Some(500);
    let (outcome, update) = login(&cfg, Some(&user), "correct horse", 1000, &mut store);
    let update = update.unwrap();
    assert_eq!(update.login_attempts, 0);
    assert_eq!(update.last_login_at, 1000);
    match outcome {
        LoginOutcome::SessionCreated { token, refresh_token, session_id } => {
            assert_eq!(session_id, 1);
            assert_eq!(store.len(), 1);
            let idx = store.find_by_access_token(token.as_str()).unwrap();
            let row = store.get(idx);
            assert_eq!(row.user_id, 7);
            assert_eq!(row.refresh_token, refresh_token);
            assert_eq!(row.expires_at, 1000 + 15 * 60);
        },
        _ => panic!("expected a session"),
    }
}

#[test]
fn lockout_scenario_four_failures_then_recovery() {
    // four failures within one minute lock the account; sixty-one seconds
    // after the last one, the correct password goes through again
    let cfg = auth_cfg();
    let mut store = SessionStore::new();
    let mut user = alice(hash_of("open sesame"));

    let times = [0u64, 10, 20, 30];
    for (i, t) in times.iter().enumerate() {
        let (outcome, update) = login(&cfg, Some(&user), "wrong", *t, &mut store);
        let update = update.unwrap();
        assert_eq!(update.login_attempts as usize, i + 1);
        user.login_attempts = update.login_attempts;
        user.last_login_at = Some(update.last_login_at);
        if i < 3 {
            assert!(matches!(outcome, LoginOutcome::InvalidCredentials));
        } else {
            assert!(matches!(outcome, LoginOutcome::Locked));
        }
    }

    // during the lock window even the correct password is refused,
    // and the counter is not touched
    let (outcome, update) = login(&cfg, Some(&user), "open sesame", 60, &mut store);
    assert!(matches!(outcome, LoginOutcome::Locked));
    assert!(update.is_none());
    assert_eq!(store.len(), 0);

    // 61 seconds after the fourth failure the window has elapsed
    let (outcome, update) = login(&cfg, Some(&user), "open sesame", 91, &mut store);
    assert!(matches!(outcome, LoginOutcome::SessionCreated { .. }));
    let update = update.unwrap();
    assert_eq!(update.login_attempts, 0);
    assert_eq!(update.last_login_at, 91);
    assert_eq!(store.len(), 1);
}

#[test]
fn elapsed_window_failure_opens_fresh_window() {
    let cfg = auth_cfg();
    let mut store = SessionStore::new();
    let mut user = alice(hash_of("open sesame"));
    user.login_attempts = 4;
    user.last_login_at = Some(100);
    // the window has elapsed; a wrong password counts as the first failure
    // of a fresh window, not the fifth of the old one
    let (outcome, update) = login(&cfg, Some(&user), "wrong", 100 + 61, &mut store);
    assert!(matches!(outcome, LoginOutcome::InvalidCredentials));
    let update = update.unwrap();
    assert_eq!(update.login_attempts, 1);
}

#[test]
fn register_rejects_empty_username() {
    let req = RegisterRequest {
        username: String::new(),
        password: String::from("longenough"),
        email: String::from("a@b.c"),
    };
    match register(&req) {
        Err(RegisterError::Invalid(m)) => assert_eq!(m, "Username cannot be empty"),
        _ => panic!("expected a validation error"),
    }
}

#[test]
fn register_rejects_empty_password() {
    let req = RegisterRequest {
        username: String::from("alice"),
        password: String::new(),
        email: String::from("a@b.c"),
    };
    match register(&req) {
        Err(RegisterError::Invalid(m)) => assert_eq!(m, "Password cannot be empty"),
        _ => panic!("expected a validation error"),
    }
}

#[test]
fn register_rejects_mailless_address() {
    let req = RegisterRequest {
        username: String::from("alice"),
        password: String::from("longenough"),
        email: String::from("nothing-here"),
    };
    match register(&req) {
        Err(RegisterError::Invalid(m)) => assert_eq!(m, "Invalid email address"),
        _ => panic!("expected a validation error"),
    }
}

#[test]
fn register_builds_verifiable_row() {
    let req = RegisterRequest {
        username: String::from("carol"),
        password: String::from("correct horse"),
        email: String::from("carol@example.com"),
    };
    let row = register(&req).unwrap();
    assert_eq!(row.username, "carol");
    assert_eq!(row.email, "carol@example.com");
    assert_eq!(row.role, "user");
    assert_eq!(row.status, "active");
    assert!(row.full_name.is_none());
    assert!(row.password_hash != "correct horse");
    // the stored hash verifies the submitted password and no other
    let cfg = auth_cfg();
    let mut store = SessionStore::new();
    let mut user = alice(row.password_hash);
    user.username = String::from("carol");
    let (ok, _) = login(&cfg, Some(&user), "correct horse", 5, &mut store);
    assert!(matches!(ok, LoginOutcome::SessionCreated { .. }));
    let (bad, _) = login(&cfg, Some(&user), "correct horsf", 6, &mut store);
    assert!(matches!(bad, LoginOutcome::InvalidCredentials));
}

#[test]
fn second_login_same_second_cannot_persist_duplicate_tokens() {
    // logging the same user in twice at the same timestamp issues the same
    // token pair; the store refuses the duplicate, the counter reset stands
    let cfg = auth_cfg();
    let mut store = SessionStore::new();
    let user = alice(hash_of("open sesame"));
    let (first, _) = login(&cfg, Some(&user), "open sesame", 1000, &mut store);
    assert!(matches!(first, LoginOutcome::SessionCreated { .. }));
    let (second, update) = login(&cfg, Some(&user), "open sesame", 1000, &mut store);
    assert!(matches!(second, LoginOutcome::PersistenceError));
    assert_eq!(update.unwrap().login_attempts, 0);
    assert_eq!(store.len(), 1);
}

#[test]
fn update_login_attempts_writes_both_fields() {
    let mut user = alice(String::new());
    user.update_login_attempts(3, 42);
    assert_eq!(user.login_attempts, 3);
    assert_eq!(user.last_login_at, Some(42));
    assert_eq!(user.username, "alice");
}

#[test]
fn oauth_account_has_no_usable_password() {
    let cfg = auth_cfg();
    let mut store = SessionStore::new();
    let row = auth_core::oauth::oauth_new_user(
        String::from("dave@example.com"),
        String::from("dave"),
        Some(String::from("Dave")),
    );
    assert_eq!(row.password_hash, "");
    let mut user = alice(row.password_hash);
    user.username = String::from("dave");
    let (outcome, _) = login(&cfg, Some(&user), "", 5, &mut store);
    assert!(matches!(outcome, LoginOutcome::InvalidCredentials));
}
