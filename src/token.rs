//! Signed session tokens (HS256 JWT) carrying a subject id and an expiry.

use std::collections::BTreeMap;

use jsonwebtoken::errors::ErrorKind;
use jsonwebtoken::{Algorithm, DecodingKey, EncodingKey, Header, Validation};
use vstd::prelude::*;

use crate::clock::now_unix;

verus! {

/// The claims a session token carries.
#[derive(Debug, Clone, Copy, PartialEq, Eq, Structural)]
pub struct Claims {
    /// The authenticated principal.
    pub sub: i64,
    /// Unix time (seconds) from which the token no longer verifies.
    pub exp: i64,
}

/// Why a token could not be issued or verified.
#[derive(Debug, Clone, Copy, PartialEq, Eq, Structural)]
pub enum TokenError {
    /// The signature does not match the secret.
    SignatureInvalid,
    /// The expiry is at or before the current time.
    Expired,
    /// The token does not decode into the expected shape.
    Malformed,
    /// The token could not be produced.
    Encoding,
}

/// The HS256 token signed with `secret` for claims `sub` and `exp`.
pub uninterp spec fn hs256_token(secret: Seq<char>, sub: i64, exp: i64) -> Seq<char>;

/// What checking the signature of `token` against `secret` and reading its
/// `sub` and `exp` claims gives.
pub uninterp spec fn hs256_opened(secret: Seq<char>, token: Seq<char>) -> Result<
    (Option<i64>, Option<i64>),
    TokenError,
>;

/// A token that opened cleanly with claims `sub` and `exp`.
pub open spec fn opened(sub: i64, exp: i64) -> Result<(Option<i64>, Option<i64>), TokenError> {
    Ok((Some(sub), Some(exp)))
}

/// Relies on `jsonwebtoken::encode` with the default HS256 header: the token for
/// the claims object `{"exp", "sub"}` signed with the secret depends on them alone.
/// It fails only on a key/algorithm family mismatch or a serialization error,
/// neither of which an HMAC key with the HS256 header and integer claims meets.
#[verifier::external_body]
fn jwt_encode(secret: &str, sub: i64, exp: i64) -> (r: Option<String>)
    ensures
        r is Some,
        r matches Some(t) ==> t@ == hs256_token(secret@, sub, exp),
{
    let claims = BTreeMap::from([("sub", sub), ("exp", exp)]);
    let key = EncodingKey::from_secret(secret.as_bytes());
    jsonwebtoken::encode(&Header::default(), &claims, &key).ok()
}

/// Relies on `jsonwebtoken::decode` over HS256 with time checks switched off:
/// it checks the signature (`InvalidSignature` on a mismatch) and decodes the
/// claims; a token that `encode` made with the same secret opens to its claims.
#[verifier::external_body]
fn jwt_decode(secret: &str, token: &str) -> (r: Result<(Option<i64>, Option<i64>), TokenError>)
    ensures
        r == hs256_opened(secret@, token@),
        forall|sub: i64, exp: i64|
            token@ == #[trigger] hs256_token(secret@, sub, exp) ==> r == opened(sub, exp),
{
    let mut v = Validation::new(Algorithm::HS256);
    v.validate_exp = false;
    v.required_spec_claims.clear();
    let key = DecodingKey::from_secret(secret.as_bytes());
    match jsonwebtoken::decode::<BTreeMap<String, i64>>(token, &key, &v) {
        Ok(d) => Ok((d.claims.get("sub").copied(), d.claims.get("exp").copied())),
        Err(e) => match e.kind() {
            ErrorKind::InvalidSignature => Err(TokenError::SignatureInvalid),
            _ => Err(TokenError::Malformed),
        },
    }
}

/// The claims recovered from an opened token, judged at time `now`.
pub open spec fn claims_at(
    opened: Result<(Option<i64>, Option<i64>), TokenError>,
    now: i64,
) -> Result<Claims, TokenError> {
    match opened {
        Err(e) => Err(e),
        Ok((Some(sub), Some(exp))) => if exp <= now {
            Err(TokenError::Expired)
        } else {
            Ok(Claims { sub, exp })
        },
        Ok(_) => Err(TokenError::Malformed),
    }
}

/// Whether `r` is what issuing a token for `sub` at time `now` with lifetime
/// `ttl` gives: the token signed for expiry `now + ttl` when that fits in `i64`,
/// else `Encoding`.
pub open spec fn issue_result(
    r: Result<String, TokenError>,
    secret: Seq<char>,
    ttl: i64,
    sub: i64,
    now: i64,
) -> bool {
    if i64::MIN <= now + ttl <= i64::MAX {
        r matches Ok(t) && t@ == hs256_token(secret, sub, (now + ttl) as i64)
    } else {
        r == Err::<String, TokenError>(TokenError::Encoding)
    }
}

/// Issues a token for `user_id` at time `now`, expiring `expire_seconds` later.
/// The encoding is deterministic: equal arguments give equal tokens.
pub fn issue_jwt_at(secret: &str, expire_seconds: i64, user_id: i64, now: i64) -> (r: Result<
    String,
    TokenError,
>)
    ensures
        issue_result(r, secret@, expire_seconds, user_id, now),
{
    let exp = match now.checked_add(expire_seconds) {
        Some(e) => e,
        None => {
            return Err(TokenError::Encoding);
        },
    };
    match jwt_encode(secret, user_id, exp) {
        Some(t) => Ok(t),
        None => Err(TokenError::Encoding),
    }
}

/// Issues a token for `user_id` that expires `expire_seconds` from now; see
/// `issue_jwt_at`.
pub fn issue_jwt(secret: &str, expire_seconds: i64, user_id: i64) -> (r: Result<
    String,
    TokenError,
>)
    ensures
        exists|now: i64| #[trigger] issue_result(r, secret@, expire_seconds, user_id, now),
{
    let now = now_unix();
    issue_jwt_at(secret, expire_seconds, user_id, now)
}

/// Verifies `token` against `secret` at time `now`. A token issued with the same
/// secret gives back its subject until its expiry, and `Expired` from then on.
pub fn verify_jwt_at(secret: &str, token: &str, now: i64) -> (r: Result<Claims, TokenError>)
    ensures
        r == claims_at(hs256_opened(secret@, token@), now),
        forall|sub: i64, exp: i64|
            token@ == #[trigger] hs256_token(secret@, sub, exp) ==> r == (if exp <= now {
                Err(TokenError::Expired)
            } else {
                Ok(Claims { sub, exp })
            }),
{
    match jwt_decode(secret, token) {
        Err(e) => Err(e),
        Ok((Some(sub), Some(exp))) => {
            if exp <= now {
                Err(TokenError::Expired)
            } else {
                Ok(Claims { sub, exp })
            }
        },
        Ok(_) => Err(TokenError::Malformed),
    }
}

/// Verifies `token` against `secret` at the current time; see `verify_jwt_at`.
pub fn verify_jwt(secret: &str, token: &str) -> (r: Result<Claims, TokenError>)
    ensures
        exists|now: i64| r == #[trigger] claims_at(hs256_opened(secret@, token@), now),
{
    let now = now_unix();
    verify_jwt_at(secret, token, now)
}

/// Issue then verify: a token issued at `issued_at` with lifetime `ttl` (whose
/// claims a same-secret decode gives back, as `verify_jwt_at` states) yields its
/// subject when checked before `issued_at + ttl`, and `Expired` once that many
/// seconds have passed.
pub proof fn lemma_issue_then_verify(sub: i64, ttl: i64, issued_at: i64, now: i64)
    requires
        i64::MIN <= issued_at + ttl <= i64::MAX,
    ensures
        now < issued_at + ttl ==> claims_at(opened(sub, (issued_at + ttl) as i64), now) == Ok::<
            Claims,
            TokenError,
        >(Claims { sub, exp: (issued_at + ttl) as i64 }),
        now >= issued_at + ttl ==> claims_at(opened(sub, (issued_at + ttl) as i64), now)
            == Err::<Claims, TokenError>(TokenError::Expired),
{
}

} // verus!
