//! Signed bearer tokens (JWT, HS256) carrying a principal and its lifetime.

use vstd::prelude::*;
use crate::error::AuthError;
use crate::model::TokenClaims;

verus! {

/// Seconds from issuance to expiry of every token this library issues.
pub const TOKEN_LIFETIME_SECS: u64 = 3600;

/// The compact HS256 JWT (default header) that jsonwebtoken makes of the
/// claims `(sub, iat, exp)` under `secret`; `None` where it refuses.
pub uninterp spec fn hs256_token_of(claims: (Seq<char>, u64, u64), secret: Seq<char>) -> Option<Seq<char>>;

/// The claims `(sub, iat, exp)` that jsonwebtoken reads from `token` when its
/// HS256 signature under `secret` checks out and its payload holds a string
/// `sub` and integer `iat` and `exp`, and no `aud`; expiry is not looked at
/// here.
pub uninterp spec fn hs256_claims_of(token: Seq<char>, secret: Seq<char>) -> Option<
    (Seq<char>, u64, u64),
>;

/// Relies on `jsonwebtoken::encode` with the default header (HS256) and
/// `EncodingKey::from_secret`; the claims go in as a JSON object. HMAC signing
/// under a secret key cannot fail, and `jsonwebtoken::decode` under the same
/// secret reads the same claims back. The token is never empty: it is three
/// parts joined by dots.
#[verifier::external_body]
fn jwt_encode(claims: &TokenClaims, secret: &str) -> (r: Option<String>)
    ensures
        r is Some,
        r matches Some(t) ==> t@.len() > 0,
        match r {
            Some(t) => hs256_token_of(claims@, secret@) == Some(t@) && hs256_claims_of(t@, secret@)
                == Some(claims@),
            None => hs256_token_of(claims@, secret@) is None,
        },
{
    let mut payload = serde_json::Map::new();
    payload.insert("sub".to_string(), serde_json::Value::from(claims.sub.as_str()));
    payload.insert("iat".to_string(), serde_json::Value::from(claims.iat));
    payload.insert("exp".to_string(), serde_json::Value::from(claims.exp));
    let key = jsonwebtoken::EncodingKey::from_secret(secret.as_bytes());
    jsonwebtoken::encode(&jsonwebtoken::Header::default(), &payload, &key).ok()
}

/// Relies on `jsonwebtoken::decode` with the default validation (HS256,
/// `exp` required, a token carrying `aud` refused) but `validate_exp` off, and `DecodingKey::from_secret`;
/// the claims are read from the payload object with serde_json's accessors.
#[verifier::external_body]
fn jwt_decode(token: &str, secret: &str) -> (r: Option<TokenClaims>)
    ensures
        match r {
            Some(c) => hs256_claims_of(token@, secret@) == Some(c@),
            None => hs256_claims_of(token@, secret@) is None,
        },
{
    let mut validation = jsonwebtoken::Validation::default();
    validation.validate_exp = false;
    let key = jsonwebtoken::DecodingKey::from_secret(secret.as_bytes());
    let data = jsonwebtoken::decode::<serde_json::Map<String, serde_json::Value>>(token, &key, &validation).ok()?;
    let sub = data.claims.get("sub")?.as_str()?.to_string();
    let iat = data.claims.get("iat")?.as_u64()?;
    let exp = data.claims.get("exp")?.as_u64()?;
    Some(TokenClaims { sub, iat, exp })
}

/// The claims issued at `now` for user `user_id`.
pub open spec fn claims_issued_at(user_id: Seq<char>, now: int) -> (Seq<char>, u64, u64) {
    (user_id, now as u64, (now + TOKEN_LIFETIME_SECS) as u64)
}

/// Builds the claims of a token issued for `user_id` at `now` (seconds since
/// the epoch). A clock before the epoch is an internal error.
pub fn issue_claims(user_id: &String, now: i64) -> (r: Result<TokenClaims, AuthError>)
    ensures
        match r {
            Ok(c) => now >= 0 && c@ == claims_issued_at(user_id@, now as int) && c.exp - c.iat
                == TOKEN_LIFETIME_SECS && c.iat == now,
            Err(e) => now < 0 && e == AuthError::Internal,
        },
{
    if now < 0 {
        return Err(AuthError::Internal);
    }
    let iat = now as u64;
    Ok(TokenClaims { sub: user_id.clone(), iat, exp: iat + TOKEN_LIFETIME_SECS })
}

/// Signs `claims` into a compact token under `secret`. Decoding the token
/// under the same secret gives the claims back.
pub fn encode_token(claims: &TokenClaims, secret: &str) -> (r: String)
    ensures
        r@.len() > 0,
        hs256_token_of(claims@, secret@) == Some(r@),
        hs256_claims_of(r@, secret@) == Some(claims@),
{
    match jwt_encode(claims, secret) {
        Some(t) => t,
        None => String::new(),
    }
}

/// Whether `claims`, read from a token with a valid signature, are still
/// live at `now`.
pub open spec fn live_at(claims: (Seq<char>, u64, u64), now: int) -> bool {
    claims.2 > now
}

/// The claims of `token` under `secret`, provided it has not expired at `now`
/// (seconds since the epoch). Every failure is the same `Unauthenticated`.
pub fn decode_token(token: &str, secret: &str, now: i64) -> (r: Result<TokenClaims, AuthError>)
    ensures
        match r {
            Ok(c) => hs256_claims_of(token@, secret@) == Some(c@) && live_at(c@, now as int),
            Err(e) => e == AuthError::Unauthenticated && match hs256_claims_of(token@, secret@) {
                Some(c) => !live_at(c, now as int),
                None => true,
            },
        },
{
    match jwt_decode(token, secret) {
        Some(c) => {
            if (c.exp as i128) > (now as i128) {
                Ok(c)
            } else {
                Err(AuthError::Unauthenticated)
            }
        },
        None => Err(AuthError::Unauthenticated),
    }
}

} // verus!
