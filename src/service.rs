//! Registration of applications, provisioning of users, and login.

use vstd::prelude::*;
use crate::error::AuthError;
use crate::hasher::{argon2_accepts, argon2_hash_of, hash_password, verify_password};
use crate::ids::{is_hyphenated_uuid, new_uuid_text, now_utc, uuid_value_of};
use crate::model::{Application, LoginUserSchema, NewUserSchema, User};
use crate::token::{claims_issued_at, encode_token, hs256_claims_of, hs256_token_of, issue_claims};

verus! {

/// Makes the record of a new application named `name`, under a fresh
/// identifier.
pub fn insert_new_application(name: String) -> (r: Application)
    ensures
        r.app_name@ == name@,
        is_hyphenated_uuid(r.id@),
        uuid_value_of(r.id@) is Some,
{
    Application { id: new_uuid_text(), app_name: name }
}

/// Whether `apps` holds an application with identifier `app_id`.
pub open spec fn app_known(apps: Seq<Application>, app_id: Seq<char>) -> bool {
    exists|i: int| 0 <= i < apps.len() && (#[trigger] apps[i]).id@ == app_id
}

/// Whether `users` holds a user of application `app_id` named `username`.
pub open spec fn name_taken(users: Seq<User>, app_id: Seq<char>, username: Seq<char>) -> bool {
    exists|i: int|
        0 <= i < users.len() && (#[trigger] users[i]).application_id@ == app_id && users[i].username@
            == username
}

/// Checks that a user named `username` may join application `app_id`, given
/// the stored applications `apps` and users `users`: `NotFound` where the
/// application is unknown, `Conflict` where the name is taken within it.
pub fn admit_new_user(apps: &Vec<Application>, users: &Vec<User>, app_id: &String, username: &String) -> (r:
    Result<(), AuthError>)
    ensures
        match r {
            Ok(_) => app_known(apps@, app_id@) && !name_taken(users@, app_id@, username@),
            Err(e) => if !app_known(apps@, app_id@) {
                e == AuthError::NotFound
            } else {
                e == AuthError::Conflict && name_taken(users@, app_id@, username@)
            },
        },
{
    let mut known = false;
    let mut i: usize = 0;
    while i < apps.len()
        invariant
            i <= apps@.len(),
            known == exists|k: int| 0 <= k < i && (#[trigger] apps@[k]).id@ == app_id@,
        decreases apps@.len() - i,
    {
        if apps[i].id == *app_id {
            known = true;
        }
        i += 1;
    }
    if !known {
        return Err(AuthError::NotFound);
    }
    let mut j: usize = 0;
    while j < users.len()
        invariant
            j <= users@.len(),
            app_known(apps@, app_id@),
            forall|k: int|
                0 <= k < j ==> !((#[trigger] users@[k]).application_id@ == app_id@ && users@[k].username@
                    == username@),
        decreases users@.len() - j,
    {
        if users[j].application_id == *app_id && users[j].username == *username {
            return Err(AuthError::Conflict);
        }
        j += 1;
    }
    Ok(())
}

/// Makes the record of a new user of application `app_id`, given the stored
/// applications `apps` and users `users`: a fresh identifier, the password
/// hashed under a fresh salt, and both timestamps set to the same current
/// instant. An unknown application is `NotFound`, a name already taken within
/// it is `Conflict`, and a hashing failure is `Internal`; a password of up to
/// 1024 characters is always hashed, so then the call succeeds.
pub fn insert_new_user(apps: &Vec<Application>, users: &Vec<User>, user: NewUserSchema, app_id: String) -> (r:
    Result<User, AuthError>)
    ensures
        app_known(apps@, app_id@) && !name_taken(users@, app_id@, user.username@) && user.password@.len()
            <= 1024 ==> r is Ok,
        match r {
            Ok(u) => {
                &&& app_known(apps@, app_id@)
                &&& !name_taken(users@, app_id@, user.username@)
                &&& is_hyphenated_uuid(u.id@)
                &&& uuid_value_of(u.id@) is Some
                &&& u.username@ == user.username@
                &&& u.email@ == user.email@
                &&& exists|salt: Seq<char>| argon2_hash_of(user.password@, salt) == Some(u.password@)
                &&& argon2_accepts(user.password@, u.password@)
                &&& u.created_at == u.updated_at
                &&& u.application_id@ == app_id@
            },
            Err(e) => if !app_known(apps@, app_id@) {
                e == AuthError::NotFound
            } else if name_taken(users@, app_id@, user.username@) {
                e == AuthError::Conflict
            } else {
                e == AuthError::Internal && exists|salt: Seq<char>| argon2_hash_of(user.password@, salt) is None
            },
        },
{
    match admit_new_user(apps, users, &app_id, &user.username) {
        Ok(_) => {},
        Err(e) => return Err(e),
    }
    let hashed = match hash_password(user.password.as_str()) {
        Ok(h) => h,
        Err(e) => return Err(e),
    };
    let now = now_utc();
    Ok(User {
        id: new_uuid_text(),
        username: user.username,
        email: user.email,
        password: hashed,
        created_at: now,
        updated_at: now,
        application_id: app_id,
    })
}

/// The users of `rows` whose login name is `username`, in order.
pub open spec fn users_named(rows: Seq<User>, username: Seq<char>) -> Seq<User> {
    rows.filter(|u: User| u.username@ == username)
}

proof fn lemma_users_named_push(s: Seq<User>, u: User, username: Seq<char>)
    ensures
        users_named(s.push(u), username) == if u.username@ == username {
            users_named(s, username).push(u)
        } else {
            users_named(s, username)
        },
{
    reveal(Seq::filter);
    assert(s.push(u).drop_last() =~= s);
}

/// Looks up the one user of `rows` named `username`: `NotFound` where there
/// is none, `Conflict` where the name is ambiguous.
pub fn find_user_record(rows: &Vec<User>, username: &String) -> (r: Result<User, AuthError>)
    ensures
        match r {
            Ok(u) => users_named(rows@, username@).len() == 1 && u == users_named(rows@, username@)[0],
            Err(e) => if users_named(rows@, username@).len() == 0 {
                e == AuthError::NotFound
            } else {
                e == AuthError::Conflict && users_named(rows@, username@).len() > 1
            },
        },
{
    let mut found: Option<usize> = None;
    let mut i: usize = 0;
    while i < rows.len()
        invariant
            i <= rows@.len(),
            match found {
                None => users_named(rows@.subrange(0, i as int), username@).len() == 0,
                Some(k) => k < i && users_named(rows@.subrange(0, i as int), username@).len() == 1
                    && users_named(rows@.subrange(0, i as int), username@)[0] == rows@[k as int],
            },
        decreases rows@.len() - i,
    {
        proof {
            assert(rows@.subrange(0, i + 1) =~= rows@.subrange(0, i as int).push(rows@[i as int]));
            lemma_users_named_push(rows@.subrange(0, i as int), rows@[i as int], username@);
        }
        if rows[i].username == *username {
            if found.is_some() {
                proof {
                    lemma_users_named_grows(rows@, username@, i as int + 1);
                }
                return Err(AuthError::Conflict);
            }
            found = Some(i);
        }
        i += 1;
    }
    proof {
        assert(rows@.subrange(0, rows@.len() as int) =~= rows@);
    }
    match found {
        Some(k) => Ok(rows[k].copy()),
        None => Err(AuthError::NotFound),
    }
}

/// Filtering a longer prefix keeps at least as many users.
proof fn lemma_users_named_grows(rows: Seq<User>, username: Seq<char>, n: int)
    requires
        0 <= n <= rows.len(),
    ensures
        users_named(rows.subrange(0, n), username).len() <= users_named(rows, username).len(),
    decreases rows.len() - n,
{
    if n < rows.len() {
        assert(rows.subrange(0, n + 1) =~= rows.subrange(0, n).push(rows[n]));
        lemma_users_named_push(rows.subrange(0, n), rows[n], username);
        lemma_users_named_grows(rows, username, n + 1);
    } else {
        assert(rows.subrange(0, n) =~= rows);
    }
}

/// Whether `body` names exactly one user of `rows` and its password matches
/// that user's stored hash.
pub open spec fn credentials_ok(rows: Seq<User>, body: LoginUserSchema) -> bool {
    &&& users_named(rows, body.username@).len() == 1
    &&& argon2_accepts(body.password@, users_named(rows, body.username@)[0].password@)
}

/// The token owed for a login that passed, issued at `now`.
pub open spec fn login_token(rows: Seq<User>, body: LoginUserSchema, secret: Seq<char>, now: int) -> Option<
    Seq<char>,
> {
    hs256_token_of(claims_issued_at(users_named(rows, body.username@)[0].id@, now), secret)
}

/// Logs in with `body` against the candidate users `rows` at `now` (seconds
/// since the epoch), returning a token signed under `secret`. A wrong name or
/// password gives `InvalidCredentials`; a clock before the epoch gives
/// `Internal`. The token decodes, under `secret`, to the claims issued at
/// `now` for the user found.
pub fn login_user_at(rows: &Vec<User>, body: &LoginUserSchema, secret: &str, now: i64) -> (r: Result<
    String,
    AuthError,
>)
    ensures
        match r {
            Ok(t) => {
                &&& credentials_ok(rows@, *body)
                &&& t@.len() > 0
                &&& now >= 0
                &&& login_token(rows@, *body, secret@, now as int) == Some(t@)
                &&& hs256_claims_of(t@, secret@) == Some(
                    claims_issued_at(users_named(rows@, body.username@)[0].id@, now as int),
                )
            },
            Err(e) => if !credentials_ok(rows@, *body) {
                e == AuthError::InvalidCredentials
            } else {
                e == AuthError::Internal && now < 0
            },
        },
{
    let user = match find_user_record(rows, &body.username) {
        Ok(u) => u,
        Err(_) => return Err(AuthError::InvalidCredentials),
    };
    if !verify_password(body.password.as_str(), user.password.as_str()) {
        return Err(AuthError::InvalidCredentials);
    }
    let claims = match issue_claims(&user.id, now) {
        Ok(c) => c,
        Err(e) => return Err(e),
    };
    Ok(encode_token(&claims, secret))
}

/// Logs in at the current time; see `login_user_at`. With credentials that
/// pass, it fails only on a system clock set before the epoch.
pub fn login_user(rows: &Vec<User>, body: &LoginUserSchema, secret: &str) -> (r: Result<String, AuthError>)
    ensures
        match r {
            Ok(t) => credentials_ok(rows@, *body) && t@.len() > 0 && exists|now: int|
                0 <= now <= i64::MAX && login_token(rows@, *body, secret@, now) == Some(t@)
                    && hs256_claims_of(t@, secret@) == Some(
                    claims_issued_at(users_named(rows@, body.username@)[0].id@, now),
                ),
            Err(e) => if !credentials_ok(rows@, *body) {
                e == AuthError::InvalidCredentials
            } else {
                e == AuthError::Internal
            },
        },
{
    let now = now_utc();
    login_user_at(rows, body, secret, now.secs)
}

} // verus!
