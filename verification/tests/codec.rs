use auth_core::config::AuthConfig;
use auth_core::errors::CodecError;
use auth_core::jwt::{decode_token, generate_jwt, validate_refresh_token};

fn codec_cfg() -> AuthConfig {
    AuthConfig::new(
        String::from("access-secret"),
        String::from("refresh-secret"),
        15,
        240,
        1,
    )
    .unwrap()
}

#[test]
fn round_trip_access_token() {
    let cfg = codec_cfg();
    let now = 1_700_000_000;
    let token = generate_jwt(&cfg, "alice", false, now).unwrap();
    let claims = decode_token(&cfg, token.as_str(), false, now + 60).unwrap();
    assert_eq!(claims.sub, "alice");
    assert_eq!(claims.exp, now + 15 * 60);
    assert!(!claims.refresh);
}

#[test]
fn round_trip_refresh_token() {
    let cfg = codec_cfg();
    let now = 1_700_000_000;
    let token = generate_jwt(&cfg, "bob", true, now).unwrap();
    let claims = validate_refresh_token(&cfg, token.as_str(), now + 1).unwrap();
    assert_eq!(claims.sub, "bob");
    assert_eq!(claims.exp, now + 240 * 60);
    assert!(claims.refresh);
}

#[test]
fn expired_token_reports_expired() {
    let cfg = codec_cfg();
    let now = 1_700_000_000;
    let token = generate_jwt(&cfg, "alice", false, now).unwrap();
    let r = decode_token(&cfg, token.as_str(), false, now + 15 * 60 + 1);
    assert_eq!(r.unwrap_err(), CodecError::Expired);
}

#[test]
fn expiry_boundary_is_not_expired() {
    let cfg = codec_cfg();
    let now = 1_700_000_000;
    let token = generate_jwt(&cfg, "alice", false, now).unwrap();
    let claims = decode_token(&cfg, token.as_str(), false, now + 15 * 60).unwrap();
    assert_eq!(claims.exp, now + 15 * 60);
}

#[test]
fn wrong_kind_secret_is_signature_invalid() {
    let cfg = codec_cfg();
    let now = 1_700_000_000;
    let token = generate_jwt(&cfg, "alice", false, now).unwrap();
    let r = decode_token(&cfg, token.as_str(), true, now);
    assert_eq!(r.unwrap_err(), CodecError::SignatureInvalid);
}

#[test]
fn garbage_token_is_malformed() {
    let cfg = codec_cfg();
    let r = decode_token(&cfg, "not-a-token", false, 0);
    assert_eq!(r.unwrap_err(), CodecError::Malformed);
}

#[test]
fn tampered_payload_is_rejected() {
    let cfg = codec_cfg();
    let now = 1_700_000_000;
    let token = generate_jwt(&cfg, "alice", false, now).unwrap();
    let mut parts: Vec<&str> = token.split('.').collect();
    assert_eq!(parts.len(), 3);
    let other = generate_jwt(&cfg, "mallory", false, now).unwrap();
    let other_parts: Vec<&str> = other.split('.').collect();
    parts[1] = other_parts[1];
    let forged = parts.join(".");
    assert!(forged != token);
    assert!(decode_token(&cfg, forged.as_str(), false, now).is_err());
}

#[test]
fn issuance_overflow_is_reported() {
    let cfg = codec_cfg();
    let r = generate_jwt(&cfg, "alice", false, u64::MAX - 10);
    assert_eq!(r.unwrap_err(), CodecError::TimestampOverflow);
}

#[test]
fn config_rejects_oversized_durations() {
    assert!(AuthConfig::new(String::from("a"), String::from("b"), u64::MAX, 1, 1).is_none());
    assert!(AuthConfig::new(String::from("a"), String::from("b"), 1, 1, u64::MAX / 60 + 1)
        .is_none());
    assert!(AuthConfig::new(String::from("a"), String::from("b"), 1, 1, u64::MAX / 60).is_some());
}
