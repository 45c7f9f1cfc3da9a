//! The token codec: issues and decodes signed claim sets. A token carries a
//! subject, a numeric expiry and a kind flag, and is signed with the secret
//! configured for its kind. Signing and signature verification are performed
//! by an outside JWT library behind two trusted wrappers; everything the rest
//! of the crate knows about them is stated in those wrappers' contracts, over
//! the two uninterpreted functions [`token_of`] and [`decode_of`].

use vstd::prelude::*;

use crate::config::{AuthConfig, AuthConfigV};
use crate::errors::CodecError;

verus! {

/// The claim set carried by a token: subject, expiry (seconds since the
/// epoch) and whether the token is a refresh token.
#[derive(Debug)]
pub struct Claims {
    pub sub: String,
    pub exp: u64,
    pub refresh: bool,
}

/// The claim set as mathematical values.
pub struct ClaimsV {
    pub sub: Seq<char>,
    pub exp: u64,
    pub refresh: bool,
}

impl View for Claims {
    type V = ClaimsV;

    open spec fn view(&self) -> ClaimsV {
        ClaimsV { sub: self.sub@, exp: self.exp, refresh: self.refresh }
    }
}

/// The token produced by signing the given claims with the given secret.
/// The signing scheme is deterministic (an HMAC over a canonical
/// serialisation), so the token is a function of its arguments alone.
pub uninterp spec fn token_of(sub: Seq<char>, exp: u64, refresh: bool, secret: Seq<char>) -> Seq<char>;

/// What decoding a token under a secret yields: the claim triple when the
/// signature verifies and the claims are well formed, `None` otherwise.
/// Decoding performs no expiry check, so this too is a function of its
/// arguments alone.
pub uninterp spec fn decode_of(token: Seq<char>, secret: Seq<char>) -> Option<(Seq<char>, u64, bool)>;

/// What the raw decoding step reports before any expiry check.
pub(crate) enum RawDecode {
    Decoded { sub: String, exp: u64, refresh: bool },
    BadSignature,
    Malformed,
}

/// Relies on `jsonwebtoken::encode` with the default header (HS256) and an
/// HMAC secret key: signing a JSON object under such a key cannot fail and is
/// deterministic, and `jsonwebtoken::decode` under the same secret returns
/// exactly the claims that were signed.
#[verifier::external_body]
fn jwt_encode(sub: &str, exp: u64, refresh: bool, secret: &str) -> (r: String)
    ensures
        r@ == token_of(sub@, exp, refresh, secret@),
        decode_of(r@, secret@) == Some((sub@, exp, refresh)),
{
    let mut claims = serde_json::Map::new();
    claims.insert("sub".to_string(), serde_json::Value::String(sub.to_string()));
    claims.insert("exp".to_string(), serde_json::Value::from(exp));
    claims.insert("refresh".to_string(), serde_json::Value::Bool(refresh));
    let key = jsonwebtoken::EncodingKey::from_secret(secret.as_bytes());
    let object = serde_json::Value::Object(claims);
    jsonwebtoken::encode(&jsonwebtoken::Header::default(), &object, &key)
        .expect("HMAC signing of a JSON object does not fail")
}

/// Relies on `jsonwebtoken::decode`, with the library's own clock-based
/// expiry check turned off so that the result depends on the token and the
/// secret alone; the expiry is checked separately against an injected time.
/// An invalid signature is reported as such; every other failure (malformed
/// token, missing or ill-typed claims) collapses to `Malformed`.
#[verifier::external_body]
pub(crate) fn jwt_decode(token: &str, secret: &str) -> (r: RawDecode)
    ensures
        match decode_of(token@, secret@) {
            Some(c) => r matches RawDecode::Decoded { sub, exp, refresh } && sub@ == c.0
                && exp == c.1 && refresh == c.2,
            None => !(r matches RawDecode::Decoded { .. }),
        },
{
    let key = jsonwebtoken::DecodingKey::from_secret(secret.as_bytes());
    let mut validation = jsonwebtoken::Validation::default();
    validation.validate_exp = false;
    match jsonwebtoken::decode::<serde_json::Value>(token, &key, &validation) {
        Ok(d) => match (d.claims.get("sub").and_then(|v| v.as_str()), d.claims.get("exp").and_then(|v| v.as_u64()), d.claims.get("refresh").and_then(|v| v.as_bool())) {
            (Some(sub), Some(exp), Some(refresh)) => RawDecode::Decoded { sub: sub.to_string(), exp, refresh },
            _ => RawDecode::Malformed,
        },
        Err(e) => match e.kind() {
            jsonwebtoken::errors::ErrorKind::InvalidSignature => RawDecode::BadSignature,
            _ => RawDecode::Malformed,
        },
    }
}

/// The expiry stamped into a token issued at `now`: the issuance time plus
/// the configured lifetime of the kind.
pub open spec fn token_expiry(cfg: AuthConfigV, refresh: bool, now: u64) -> int {
    now + cfg.duration_secs(refresh)
}

/// The token issued for a subject at a given time, as a function of the
/// configuration.
pub open spec fn issued_token(cfg: AuthConfigV, sub: Seq<char>, refresh: bool, now: u64) -> Seq<char> {
    token_of(sub, token_expiry(cfg, refresh, now) as u64, refresh, cfg.secret(refresh))
}

/// What decoding yields once the raw claim triple is known: `Expired` when
/// the expiry lies strictly before the supplied time, the claims otherwise.
pub open spec fn decoded_claims(c: (Seq<char>, u64, bool), now: u64) -> Result<ClaimsV, CodecError> {
    if c.1 < now {
        Err(CodecError::Expired)
    } else {
        Ok(ClaimsV { sub: c.0, exp: c.1, refresh: c.2 })
    }
}

/// The view of a decode result.
pub open spec fn decode_result_view(r: Result<Claims, CodecError>) -> Result<ClaimsV, CodecError> {
    match r {
        Ok(c) => Ok(c@),
        Err(e) => Err(e),
    }
}

/// Issues a token of the selected kind for `user_name` at time `now`: the
/// expiry is `now` plus the configured lifetime, and the token is signed with
/// the secret for the kind. Fails only when that expiry does not fit in a
/// `u64`.
pub fn generate_jwt(cfg: &AuthConfig, user_name: &str, refresh: bool, now: u64) -> (r: Result<
    String,
    CodecError,
>)
    requires
        cfg@.wf(),
    ensures
        (r is Ok) <==> token_expiry(cfg@, refresh, now) <= u64::MAX,
        r matches Ok(t) ==> t@ == issued_token(cfg@, user_name@, refresh, now)
            && decode_of(t@, cfg@.secret(refresh)) == Some(
            (user_name@, token_expiry(cfg@, refresh, now) as u64, refresh),
        ),
        r matches Err(e) ==> e == CodecError::TimestampOverflow,
{
    let minutes = if refresh {
        cfg.refresh_token_exp_duration
    } else {
        cfg.access_token_exp_duration
    };
    let secs = minutes * 60;
    match now.checked_add(secs) {
        Some(exp) => {
            let secret = if refresh {
                &cfg.jwt_secret_x
            } else {
                &cfg.jwt_secret
            };
            Ok(jwt_encode(user_name, exp, refresh, secret.as_str()))
        },
        None => Err(CodecError::TimestampOverflow),
    }
}

/// Decodes a token of the selected kind at time `now`. When the signature
/// verifies and the claims are well formed, the result is `Expired` if the
/// stamped expiry lies before `now` and the claims otherwise; any other
/// failure is `SignatureInvalid` or `Malformed`.
pub fn decode_token(cfg: &AuthConfig, token: &str, refresh: bool, now: u64) -> (r: Result<
    Claims,
    CodecError,
>)
    ensures
        match decode_of(token@, cfg@.secret(refresh)) {
            Some(c) => decode_result_view(r) == decoded_claims(c, now),
            None => r matches Err(e) && (e == CodecError::SignatureInvalid || e
                == CodecError::Malformed),
        },
{
    let secret = if refresh {
        &cfg.jwt_secret_x
    } else {
        &cfg.jwt_secret
    };
    match jwt_decode(token, secret.as_str()) {
        RawDecode::Decoded { sub, exp, refresh: flag } => {
            if exp < now {
                Err(CodecError::Expired)
            } else {
                Ok(Claims { sub, exp, refresh: flag })
            }
        },
        RawDecode::BadSignature => Err(CodecError::SignatureInvalid),
        RawDecode::Malformed => Err(CodecError::Malformed),
    }
}

/// Decodes a refresh token: `decode_token` with the refresh secret.
pub fn validate_refresh_token(cfg: &AuthConfig, refresh_token: &str, now: u64) -> (r: Result<
    Claims,
    CodecError,
>)
    ensures
        match decode_of(refresh_token@, cfg@.jwt_secret_x) {
            Some(c) => decode_result_view(r) == decoded_claims(c, now),
            None => r matches Err(e) && (e == CodecError::SignatureInvalid || e
                == CodecError::Malformed),
        },
{
    decode_token(cfg, refresh_token, true, now)
}

/// Round trip: a token issued for a subject at time `t` decodes, at any time
/// `t2` not past its expiry and under the same kind, to exactly the claims
/// that were issued — the subject unchanged and the kind flag equal to the
/// kind. The hypothesis on `decode_of` is discharged at every issuance site
/// by the ensures of `generate_jwt`.
pub proof fn lemma_issue_decode_round_trip(
    cfg: AuthConfigV,
    sub: Seq<char>,
    refresh: bool,
    t: u64,
    t2: u64,
)
    ensures
        (decode_of(issued_token(cfg, sub, refresh, t), cfg.secret(refresh)) == Some(
            (sub, token_expiry(cfg, refresh, t) as u64, refresh),
        ) && token_expiry(cfg, refresh, t) <= u64::MAX && t2 <= token_expiry(cfg, refresh, t))
            ==> decoded_claims(
            (sub, token_expiry(cfg, refresh, t) as u64, refresh),
            t2,
        ) == Ok::<ClaimsV, CodecError>(
            ClaimsV { sub, exp: token_expiry(cfg, refresh, t) as u64, refresh },
        ),
{
}

} // verus!
