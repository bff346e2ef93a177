//! Request authentication: finds the bearer token of a request, checks it,
//! and yields the authenticated principal.

use vstd::prelude::*;
use vstd::string::*;
use crate::error::AuthError;
use crate::ids::{parse_uuid, uuid_value_of, now_utc};
use crate::token::{decode_token, hs256_claims_of, live_at};

verus! {

/// The principal bound to an authenticated request.
#[derive(Clone, Copy, Debug, PartialEq, Eq, Structural)]
pub struct JwtMiddleware {
    /// The authenticated user's identifier, as a 128-bit UUID value.
    pub user_id: u128,
}

/// The scheme prefix of an `Authorization` header that carries a token.
pub open spec fn bearer_prefix() -> Seq<char> {
    seq!['B', 'e', 'a', 'r', 'e', 'r', ' ']
}

/// The token a request presents: the `token` cookie if there is one, else what
/// follows `Bearer ` in the `Authorization` header.
pub open spec fn token_source(cookie: Option<Seq<char>>, authorization: Option<Seq<char>>) -> Option<
    Seq<char>,
> {
    match cookie {
        Some(c) => Some(c),
        None => match authorization {
            Some(h) => if h.len() >= 7 && h.subrange(0, 7) == bearer_prefix() {
                Some(h.subrange(7, h.len() as int))
            } else {
                None
            },
            None => None,
        },
    }
}

/// The user a request with this cookie and header authenticates as at `now`,
/// if any: a non-empty token, signed under `secret`, live at `now`, whose
/// `sub` parses as a UUID.
pub open spec fn authenticated_user(
    cookie: Option<Seq<char>>,
    authorization: Option<Seq<char>>,
    secret: Seq<char>,
    now: int,
) -> Option<u128> {
    match token_source(cookie, authorization) {
        Some(t) => if t.len() == 0 {
            None
        } else {
            match hs256_claims_of(t, secret) {
                Some(c) => if live_at(c, now) {
                    uuid_value_of(c.0)
                } else {
                    None
                },
                None => None,
            }
        },
        None => None,
    }
}

/// The character sequence of an optional string.
pub open spec fn opt_view(o: Option<String>) -> Option<Seq<char>> {
    match o {
        Some(s) => Some(s@),
        None => None,
    }
}

/// Whether `h` begins with `Bearer `.
fn has_bearer_prefix(h: &str) -> (r: bool)
    ensures
        r == (h@.len() >= 7 && h@.subrange(0, 7) == bearer_prefix()),
{
    let n = h.unicode_len();
    if n < 7 {
        return false;
    }
    let ok = h.get_char(0) == 'B' && h.get_char(1) == 'e' && h.get_char(2) == 'a'
        && h.get_char(3) == 'r' && h.get_char(4) == 'e' && h.get_char(5) == 'r'
        && h.get_char(6) == ' ';
    proof {
        if ok {
            assert(h@.subrange(0, 7) =~= bearer_prefix());
        } else {
            assert(exists|i: int| 0 <= i < 7 && h@[i] != bearer_prefix()[i]);
            if h@.subrange(0, 7) == bearer_prefix() {
                let i = choose|i: int| 0 <= i < 7 && h@[i] != bearer_prefix()[i];
                assert(h@.subrange(0, 7)[i] == h@[i]);
            }
        }
    }
    ok
}

/// Picks the token of a request: the `token` cookie takes precedence over the
/// `Authorization: Bearer <token>` header.
pub fn extract_token(cookie: &Option<String>, authorization: &Option<String>) -> (r: Option<String>)
    ensures
        opt_view(r) == token_source(opt_view(*cookie), opt_view(*authorization)),
{
    match cookie {
        Some(c) => Some(c.clone()),
        None => match authorization {
            Some(h) => {
                if has_bearer_prefix(h.as_str()) {
                    let n = h.as_str().unicode_len();
                    Some(String::from_str(h.as_str().substring_char(7, n)))
                } else {
                    None
                }
            },
            None => None,
        },
    }
}

/// Authenticates a request, given its `token` cookie and `Authorization`
/// header, against `secret` at the instant `now` (seconds since the epoch).
/// Every rejection is the same `Unauthenticated`.
pub fn authenticate_at(
    cookie: &Option<String>,
    authorization: &Option<String>,
    secret: &str,
    now: i64,
) -> (r: Result<JwtMiddleware, AuthError>)
    ensures
        match r {
            Ok(m) => authenticated_user(opt_view(*cookie), opt_view(*authorization), secret@, now as int)
                == Some(m.user_id),
            Err(e) => e == AuthError::Unauthenticated && authenticated_user(
                opt_view(*cookie),
                opt_view(*authorization),
                secret@,
                now as int,
            ) is None,
        },
{
    let token = match extract_token(cookie, authorization) {
        Some(t) => t,
        None => return Err(AuthError::Unauthenticated),
    };
    if token.as_str().unicode_len() == 0 {
        return Err(AuthError::Unauthenticated);
    }
    let claims = match decode_token(token.as_str(), secret, now) {
        Ok(c) => c,
        Err(_) => return Err(AuthError::Unauthenticated),
    };
    match parse_uuid(claims.sub.as_str()) {
        Some(user_id) => Ok(JwtMiddleware { user_id }),
        None => Err(AuthError::Unauthenticated),
    }
}

/// Authenticates a request at the current time; see `authenticate_at`.
pub fn authenticate_request(
    cookie: &Option<String>,
    authorization: &Option<String>,
    secret: &str,
) -> (r: Result<JwtMiddleware, AuthError>)
    ensures
        match r {
            Ok(m) => exists|now: int|
                i64::MIN <= now <= i64::MAX && authenticated_user(
                    opt_view(*cookie),
                    opt_view(*authorization),
                    secret@,
                    now,
                ) == Some(m.user_id),
            Err(e) => e == AuthError::Unauthenticated && exists|now: int|
                i64::MIN <= now <= i64::MAX && authenticated_user(
                    opt_view(*cookie),
                    opt_view(*authorization),
                    secret@,
                    now,
                ) is None,
        },
{
    let now = now_utc();
    authenticate_at(cookie, authorization, secret, now.secs)
}

} // verus!
