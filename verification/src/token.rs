//! Token issuance and verification: a signed, self-contained token carrying
//! a subject and an expiry, verifiable by any holder of the shared secret.
//!
//! Signing and signature checking are done by the jsonwebtoken crate with
//! the HS256 algorithm; both are deterministic in their inputs, so the token
//! string and the decoded claims are given names (`token_of`, `claims_of`)
//! that the trusted wrappers relate. The expiry comparison itself is done
//! here, in verified code, against a caller-supplied clock reading.
use vstd::prelude::*;

use crate::errors::AuthError;
use crate::models::Claims;

verus! {

/// How long an issued token stays valid, in seconds: 24 hours.
pub const TOKEN_LIFETIME_SECONDS: usize = 86400;

/// What `jsonwebtoken::encode` returns for HS256 claims `{sub, exp}` under
/// `secret`: deterministic in its three arguments.
pub uninterp spec fn token_of(sub: Seq<char>, exp: int, secret: Seq<char>) -> Seq<char>;

/// What signature-checking decoding returns for `token` under `secret`:
/// the embedded subject and expiry when the signature verifies and both
/// claims are present, `None` otherwise. Deterministic in its arguments;
/// the clock plays no part, expiry is checked separately.
pub uninterp spec fn claims_of(token: Seq<char>, secret: Seq<char>) -> Option<(Seq<char>, int)>;

/// Relies on jsonwebtoken::encode with HS256: the token is a deterministic
/// function of the subject, expiry and secret, and decoding it with the
/// same secret yields the same claims back. Signing cannot fail here: the
/// key comes from `EncodingKey::from_secret` (so its family matches HS256),
/// HMAC-SHA256 accepts a key of any length, and serializing the fixed,
/// string-keyed claims cannot fail — and the produced token, three
/// dot-joined base64 parts, is never empty.
#[verifier::external_body]
pub(crate) fn encode_claims(sub: &str, exp: usize, secret: &str) -> (r: Result<String, ()>)
    ensures
        r is Ok,
        r matches Ok(t) ==> t@ == token_of(sub@, exp as int, secret@) && claims_of(t@, secret@)
            == Some((sub@, exp as int)) && t@.len() > 0,
{
    let mut claims = serde_json::Map::new();
    claims.insert("sub".to_string(), serde_json::Value::String(sub.to_string()));
    claims.insert("exp".to_string(), serde_json::Value::from(exp as u64));
    let header = jsonwebtoken::Header::new(jsonwebtoken::Algorithm::HS256);
    let key = jsonwebtoken::EncodingKey::from_secret(secret.as_bytes());
    match jsonwebtoken::encode(&header, &serde_json::Value::Object(claims), &key) {
        Ok(t) => Ok(t),
        Err(_) => Err(()),
    }
}

/// Relies on jsonwebtoken::decode with HS256 and with its own expiry check
/// switched off: deterministic in the token and secret; succeeds exactly
/// when the signature verifies and the subject and expiry claims are
/// present, and returns them unchanged.
#[verifier::external_body]
pub(crate) fn decode_claims(token: &str, secret: &str) -> (r: Result<Claims, ()>)
    ensures
        (match r {
            Ok(c) => Some((c.sub@, c.exp as int)),
            Err(_) => None,
        }) == claims_of(token@, secret@),
{
    let mut validation = jsonwebtoken::Validation::new(jsonwebtoken::Algorithm::HS256);
    validation.validate_exp = false;
    let key = jsonwebtoken::DecodingKey::from_secret(secret.as_bytes());
    let data = match jsonwebtoken::decode::<serde_json::Value>(token, &key, &validation) {
        Ok(d) => d.claims,
        Err(_) => return Err(()),
    };
    match (data.get("sub"), data.get("exp").and_then(serde_json::Value::as_u64)) {
        (Some(serde_json::Value::String(s)), Some(e)) => Ok(
            Claims { sub: s.clone(), exp: e as usize },
        ),
        _ => Err(()),
    }
}

/// What issuing a token for `sub` at time `now` under `secret` returns:
/// always a non-empty token carrying exactly those claims — with an HMAC
/// secret the signer owes success.
pub open spec fn issue_post(
    sub: Seq<char>,
    now: usize,
    secret: Seq<char>,
    r: Result<Seq<char>, AuthError>,
) -> bool {
    match r {
        Ok(t) => t == token_of(sub, now + TOKEN_LIFETIME_SECONDS, secret) && claims_of(t, secret)
            == Some((sub, now + TOKEN_LIFETIME_SECONDS as int)) && t.len() > 0,
        Err(_) => false,
    }
}

/// Signs claims `{sub, exp: now + 24h}` with `secret`; never fails.
pub fn issue_token(sub: &str, now: usize, secret: &str) -> (r: Result<String, AuthError>)
    requires
        now + TOKEN_LIFETIME_SECONDS <= usize::MAX,
    ensures
        issue_post(
            sub@,
            now,
            secret@,
            (match r {
                Ok(t) => Ok(t@),
                Err(e) => Err(e),
            }),
        ),
{
    let exp = now + TOKEN_LIFETIME_SECONDS;
    match encode_claims(sub, exp, secret) {
        Ok(t) => Ok(t),
        Err(_) => Err(AuthError::TokenIssuanceFailed),
    }
}

/// What verifying `token` under `secret` at time `now` returns: the embedded
/// claims exactly when the signature verifies and the expiry is still ahead
/// of `now`; otherwise `InvalidCredentials`.
pub open spec fn token_accept_post(
    token: Seq<char>,
    secret: Seq<char>,
    now: usize,
    r: Result<(Seq<char>, int), AuthError>,
) -> bool {
    match r {
        Ok(c) => claims_of(token, secret) == Some(c) && now < c.1,
        Err(e) => e == AuthError::InvalidCredentials && (claims_of(token, secret) is None
            || claims_of(token, secret).unwrap().1 <= now),
    }
}

/// Checks `token`'s signature against `secret` and its expiry against `now`;
/// a token is accepted only when both pass.
pub fn verify_token(token: &str, secret: &str, now: usize) -> (r: Result<Claims, AuthError>)
    ensures
        token_accept_post(
            token@,
            secret@,
            now,
            (match r {
                Ok(c) => Ok((c.sub@, c.exp as int)),
                Err(e) => Err(e),
            }),
        ),
{
    match decode_claims(token, secret) {
        Ok(c) => {
            if now < c.exp {
                Ok(c)
            } else {
                Err(AuthError::InvalidCredentials)
            }
        },
        Err(_) => Err(AuthError::InvalidCredentials),
    }
}

/// Checks the signing secret handed in at startup; its absence is the fatal
/// configuration error, not a per-request one.
pub fn require_secret(secret: Option<String>) -> (r: Result<String, AuthError>)
    ensures
        match r {
            Ok(s) => secret matches Some(v) && s@ == v@,
            Err(e) => e == AuthError::ConfigurationMissing && secret is None,
        },
{
    match secret {
        Some(s) => Ok(s),
        None => Err(AuthError::ConfigurationMissing),
    }
}

/// An expired token fails verification even when its signature is valid: if
/// the claims decode under the secret but their expiry is not ahead of
/// `now`, the verification outcome can only be `InvalidCredentials`.
pub proof fn lemma_expired_token_rejected(
    token: Seq<char>,
    secret: Seq<char>,
    now: usize,
    r: Result<(Seq<char>, int), AuthError>,
)
    requires
        token_accept_post(token, secret, now, r),
        claims_of(token, secret) matches Some(c) && c.1 <= now,
    ensures
        r == Err::<(Seq<char>, int), AuthError>(AuthError::InvalidCredentials),
{
}

/// Round trip: a token issued for a subject at time `now`, verified under
/// the same secret at any time before its expiry (in particular right
/// away), comes back accepted and carries that subject and that expiry.
pub proof fn lemma_issue_verify_roundtrip(
    sub: Seq<char>,
    now: usize,
    secret: Seq<char>,
    t: Seq<char>,
    now2: usize,
    r: Result<(Seq<char>, int), AuthError>,
)
    requires
        issue_post(sub, now, secret, Ok(t)),
        token_accept_post(t, secret, now2, r),
        now2 < now + TOKEN_LIFETIME_SECONDS,
    ensures
        r == Ok::<(Seq<char>, int), AuthError>((sub, now + TOKEN_LIFETIME_SECONDS as int)),
{
}

} // verus!
