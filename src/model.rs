//! Records of applications and users, and their outward-facing projections.

use vstd::prelude::*;

verus! {

/// An absolute UTC instant: whole seconds since the Unix epoch and the
/// nanoseconds past that second (above one billion only inside a leap second).
#[derive(Clone, Copy, Debug, PartialEq, Eq, Structural)]
pub struct UtcInstant {
    pub secs: i64,
    pub nanos: u32,
}

/// Claims carried inside a bearer token.
#[derive(Clone, Debug)]
pub struct TokenClaims {
    /// Identifier of the authenticated user.
    pub sub: String,
    /// Issuance instant, in seconds since the epoch.
    pub iat: u64,
    /// Expiry instant, in seconds since the epoch.
    pub exp: u64,
}

impl View for TokenClaims {
    type V = (Seq<char>, u64, u64);

    /// The claims as `(sub, iat, exp)`.
    open spec fn view(&self) -> (Seq<char>, u64, u64) {
        (self.sub@, self.iat, self.exp)
    }
}

/// A registered client application (a tenant).
#[derive(Clone, Debug)]
pub struct Application {
    pub id: String,
    pub app_name: String,
}

/// A stored user, scoped to one application. `password` holds the
/// self-describing password hash, never the plaintext.
#[derive(Clone, Debug)]
pub struct User {
    pub id: String,
    pub username: String,
    pub email: String,
    pub password: String,
    pub created_at: UtcInstant,
    pub updated_at: UtcInstant,
    pub application_id: String,
}

impl User {
    /// A field-by-field copy of this user.
    pub fn copy(&self) -> (r: User)
        ensures
            r == *self,
    {
        User {
            id: self.id.clone(),
            username: self.username.clone(),
            email: self.email.clone(),
            password: self.password.clone(),
            created_at: self.created_at,
            updated_at: self.updated_at,
            application_id: self.application_id.clone(),
        }
    }
}

/// The projection of a user that may leave the system: no password hash and
/// no tenant link.
#[derive(Clone, Debug)]
pub struct FilteredUser {
    pub id: String,
    pub username: String,
    pub email: String,
    pub created_at: UtcInstant,
    pub updated_at: UtcInstant,
}

/// Credentials presented at login.
#[derive(Clone, Debug)]
pub struct LoginUserSchema {
    pub username: String,
    pub password: String,
}

/// The request body that provisions a new user.
#[derive(Clone, Debug)]
pub struct NewUserSchema {
    pub username: String,
    pub email: String,
    pub password: String,
}

/// What the projection of `u` must hold.
pub open spec fn is_projection_of(f: FilteredUser, u: User) -> bool {
    &&& f.id@ == u.id@
    &&& f.username@ == u.username@
    &&& f.email@ == u.email@
    &&& f.created_at == u.created_at
    &&& f.updated_at == u.updated_at
}

/// Projects a stored user onto the fields that may be shown outside.
pub fn filter_user_record(user: &User) -> (r: FilteredUser)
    ensures
        is_projection_of(r, *user),
{
    FilteredUser {
        id: user.id.clone(),
        username: user.username.clone(),
        email: user.email.clone(),
        created_at: user.created_at,
        updated_at: user.updated_at,
    }
}

/// The users of `rows` that belong to application `app_id`, in order.
pub open spec fn users_of_app(rows: Seq<User>, app_id: Seq<char>) -> Seq<User> {
    rows.filter(|u: User| u.application_id@ == app_id)
}

proof fn lemma_users_of_app_push(s: Seq<User>, u: User, app_id: Seq<char>)
    ensures
        users_of_app(s.push(u), app_id) == if u.application_id@ == app_id {
            users_of_app(s, app_id).push(u)
        } else {
            users_of_app(s, app_id)
        },
{
    reveal(Seq::filter);
    assert(s.push(u).drop_last() =~= s);
}

/// Lists, in order, the projections of the users of `rows` that belong to
/// application `app_id`.
pub fn find_all_user_records(rows: &Vec<User>, app_id: &String) -> (r: Vec<FilteredUser>)
    ensures
        r@.len() == users_of_app(rows@, app_id@).len(),
        forall|k: int|
            0 <= k < r@.len() ==> is_projection_of(#[trigger] r@[k], users_of_app(rows@, app_id@)[k]),
{
    let mut out: Vec<FilteredUser> = Vec::new();
    let mut i: usize = 0;
    while i < rows.len()
        invariant
            i <= rows@.len(),
            out@.len() == users_of_app(rows@.subrange(0, i as int), app_id@).len(),
            forall|k: int|
                0 <= k < out@.len() ==> is_projection_of(
                    #[trigger] out@[k],
                    users_of_app(rows@.subrange(0, i as int), app_id@)[k],
                ),
        decreases rows@.len() - i,
    {
        proof {
            assert(rows@.subrange(0, i + 1) =~= rows@.subrange(0, i as int).push(rows@[i as int]));
            lemma_users_of_app_push(rows@.subrange(0, i as int), rows@[i as int], app_id@);
        }
        if rows[i].application_id == *app_id {
            out.push(filter_user_record(&rows[i]));
        }
        i += 1;
    }
    proof {
        assert(rows@.subrange(0, rows@.len() as int) == rows@);
    }
    out
}

} // verus!
