//! Properties that hold of every execution, proved over the contracts of the
//! login and request-authentication functions.

use vstd::prelude::*;
use crate::authn::{authenticated_user, bearer_prefix, token_source};
use crate::ids::uuid_value_of;
use crate::model::LoginUserSchema;
use crate::model::User;
use crate::service::{credentials_ok, login_token, users_named};
use crate::token::{claims_issued_at, hs256_claims_of, hs256_token_of, TOKEN_LIFETIME_SECS};

verus! {

/// A token issued by a login at `now` is the signing of claims whose `sub` is
/// the logged-in user's identifier, whose `iat` is `now`, and whose `exp`
/// lies exactly one lifetime (3600 s) after `iat`.
pub proof fn lemma_login_token_claims(
    rows: Seq<User>,
    body: LoginUserSchema,
    secret: Seq<char>,
    now: int,
)
    requires
        credentials_ok(rows, body),
        0 <= now <= i64::MAX,
    ensures
        ({
            let c = claims_issued_at(users_named(rows, body.username@)[0].id@, now);
            &&& login_token(rows, body, secret, now) == hs256_token_of(c, secret)
            &&& c.0 == users_named(rows, body.username@)[0].id@
            &&& c.1 == now
            &&& c.2 - c.1 == TOKEN_LIFETIME_SECS
        }),
{
}

/// A token that has expired at `now` (its `exp` is not after `now`)
/// authenticates nobody, whichever source carries it.
pub proof fn lemma_expired_token_rejected(
    cookie: Option<Seq<char>>,
    authorization: Option<Seq<char>>,
    secret: Seq<char>,
    now: int,
)
    requires
        token_source(cookie, authorization) is Some,
        hs256_claims_of(token_source(cookie, authorization)->Some_0, secret) is Some,
        hs256_claims_of(token_source(cookie, authorization)->Some_0, secret)->Some_0.2 <= now,
    ensures
        authenticated_user(cookie, authorization, secret, now) is None,
{
}

/// A request with neither a `token` cookie nor an `Authorization` header is
/// rejected.
pub proof fn lemma_no_credentials_rejected(secret: Seq<char>, now: int)
    ensures
        authenticated_user(None, None, secret, now) is None,
{
}

/// A request whose only credential is the header `Authorization: Bearer `
/// with nothing after the prefix is rejected.
pub proof fn lemma_empty_bearer_rejected(secret: Seq<char>, now: int)
    ensures
        authenticated_user(None, Some(bearer_prefix()), secret, now) is None,
{
    assert(bearer_prefix().subrange(0, 7) =~= bearer_prefix());
    assert(bearer_prefix().subrange(7, 7).len() == 0);
}

/// When a `token` cookie is present it is the token of the request, whatever
/// the `Authorization` header says.
pub proof fn lemma_cookie_takes_precedence(cookie: Seq<char>, authorization: Option<Seq<char>>)
    ensures
        token_source(Some(cookie), authorization) == Some(cookie),
{
}

/// A non-empty token whose claims, under `secret`, are still live at `now`
/// authenticates, as a cookie or as `Authorization: Bearer <token>` alone,
/// exactly the user whose UUID its `sub` names. With `encode_token`, whose
/// token decodes to the claims it was given, this is the round trip of a
/// token through a request.
pub proof fn lemma_live_token_authenticates(
    token: Seq<char>,
    authorization: Option<Seq<char>>,
    secret: Seq<char>,
    claims: (Seq<char>, u64, u64),
    now: int,
)
    requires
        token.len() > 0,
        hs256_claims_of(token, secret) == Some(claims),
        claims.2 > now,
    ensures
        authenticated_user(Some(token), authorization, secret, now) == uuid_value_of(claims.0),
        authenticated_user(None, Some(bearer_prefix() + token), secret, now) == uuid_value_of(claims.0),
{
    let h = bearer_prefix() + token;
    assert(h.subrange(0, 7) =~= bearer_prefix());
    assert(h.subrange(7, h.len() as int) =~= token);
}

} // verus!
