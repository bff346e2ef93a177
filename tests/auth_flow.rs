use tenant_auth::authn::{authenticate_at, authenticate_request, extract_token};
use tenant_auth::error::AuthError;
use tenant_auth::hasher::{hash_password, hash_password_with_salt, verify_password};
use tenant_auth::model::{
    filter_user_record, find_all_user_records, LoginUserSchema, NewUserSchema, TokenClaims, User,
    UtcInstant,
};
use tenant_auth::service::{
    admit_new_user, find_user_record, insert_new_application, insert_new_user, login_user,
    login_user_at,
};
use tenant_auth::model::Application;
use tenant_auth::token::{decode_token, encode_token, issue_claims, TOKEN_LIFETIME_SECS};

const SECRET: &str = "my_ultra_secure_secret";

fn unix_now() -> i64 {
    std::time::SystemTime::now()
        .duration_since(std::time::UNIX_EPOCH)
        .unwrap()
        .as_secs() as i64
}

fn some(s: &str) -> Option<String> {
    Some(s.to_string())
}

fn stored_user(id: &str, username: &str, password_hash: &str, app_id: &str) -> User {
    let t = UtcInstant { secs: 1_700_000_000, nanos: 0 };
    User {
        id: id.to_string(),
        username: username.to_string(),
        email: format!("{}@x", username),
        password: password_hash.to_string(),
        created_at: t,
        updated_at: t,
        application_id: app_id.to_string(),
    }
}

fn token_for(sub: &str, iat: u64, exp: u64, secret: &str) -> String {
    let claims = TokenClaims { sub: sub.to_string(), iat, exp };
    encode_token(&claims, secret)
}

const ALICE_ID: &str = "a1a2a3a4-b1b2-c1c2-d1d2-d3d4d5d6d7d8";
const BOB_ID: &str = "550e8400-e29b-41d4-a716-446655440000";

#[test]
fn hash_verifies_only_its_own_password() {
    let h = hash_password("s3cret").unwrap();
    assert_ne!(h, "s3cret");
    assert!(h.starts_with("$argon2id$"));
    assert!(verify_password("s3cret", &h));
    assert!(!verify_password("s3cret ", &h));
    assert!(!verify_password("wrong", &h));
    let again = hash_password("s3cret").unwrap();
    assert_ne!(h, again);
    assert!(verify_password("s3cret", &again));
}

#[test]
fn hash_under_fixed_salt_is_stable() {
    let a = hash_password_with_salt("pw", "c2FsdHNhbHRzYWx0").unwrap();
    let b = hash_password_with_salt("pw", "c2FsdHNhbHRzYWx0").unwrap();
    assert_eq!(a, b);
    assert!(a.contains("c2FsdHNhbHRzYWx0"));
    assert!(verify_password("pw", &a));
    assert_eq!(hash_password_with_salt("pw", "!"), Err(AuthError::Internal));
}

#[test]
fn malformed_hash_verifies_nothing() {
    assert!(!verify_password("s3cret", "s3cret"));
    assert!(!verify_password("", ""));
}

#[test]
fn token_round_trip_keeps_claims() {
    let now = unix_now();
    let iat = now as u64;
    let t = token_for(ALICE_ID, iat, iat + 3600, SECRET);
    assert_eq!(t.split('.').count(), 3);
    let c = decode_token(&t, SECRET, now).unwrap();
    assert_eq!(c.sub, ALICE_ID);
    assert_eq!(c.iat, iat);
    assert_eq!(c.exp, iat + 3600);
}

#[test]
fn token_under_other_secret_is_rejected() {
    let now = unix_now();
    let t = token_for(ALICE_ID, now as u64, now as u64 + 3600, SECRET);
    assert_eq!(decode_token(&t, "another_secret", now).unwrap_err(), AuthError::Unauthenticated);
    let header = Some(format!("Bearer {}", t));
    assert_eq!(authenticate_at(&None, &header, "another_secret", now), Err(AuthError::Unauthenticated));
}

#[test]
fn expired_token_is_rejected() {
    let now = unix_now();
    let t = token_for(ALICE_ID, now as u64 - 3700, now as u64 - 100, SECRET);
    assert_eq!(decode_token(&t, SECRET, now).unwrap_err(), AuthError::Unauthenticated);
    assert_eq!(authenticate_at(&Some(t.clone()), &None, SECRET, now), Err(AuthError::Unauthenticated));
    assert_eq!(authenticate_request(&Some(t), &None, SECRET), Err(AuthError::Unauthenticated));
    let live = token_for(ALICE_ID, 1000, 2000, SECRET);
    assert!(decode_token(&live, SECRET, 1999).is_ok());
    assert!(decode_token(&live, SECRET, 2000).is_err());
}

#[test]
fn missing_token_and_header_is_rejected() {
    assert_eq!(extract_token(&None, &None), None);
    assert_eq!(authenticate_at(&None, &None, SECRET, 0), Err(AuthError::Unauthenticated));
    assert_eq!(authenticate_request(&None, &None, SECRET), Err(AuthError::Unauthenticated));
}

#[test]
fn empty_bearer_is_rejected() {
    assert_eq!(extract_token(&None, &some("Bearer ")), some(""));
    assert_eq!(authenticate_at(&None, &some("Bearer "), SECRET, 0), Err(AuthError::Unauthenticated));
    assert_eq!(extract_token(&None, &some("Bearer")), None);
    assert_eq!(extract_token(&None, &some("Basic abc")), None);
    assert_eq!(extract_token(&None, &some("Bearer abc.def")), some("abc.def"));
}

#[test]
fn cookie_takes_precedence_over_header() {
    let now = unix_now();
    let a = token_for(ALICE_ID, now as u64, now as u64 + 3600, SECRET);
    let b = token_for(BOB_ID, now as u64, now as u64 + 3600, SECRET);
    let header = Some(format!("Bearer {}", b));
    assert_eq!(extract_token(&Some(a.clone()), &header), Some(a.clone()));
    let m = authenticate_at(&Some(a), &header, SECRET, now).unwrap();
    assert_eq!(m.user_id, 0xa1a2a3a4b1b2c1c2d1d2d3d4d5d6d7d8);
    assert_eq!(authenticate_at(&some("garbage"), &header, SECRET, now), Err(AuthError::Unauthenticated));
    let m = authenticate_at(&None, &header, SECRET, now).unwrap();
    assert_eq!(m.user_id, 0x550e8400e29b41d4a716446655440000);
}

#[test]
fn malformed_subject_is_rejected() {
    let now = unix_now();
    let t = token_for("not-a-uuid", now as u64, now as u64 + 3600, SECRET);
    assert!(decode_token(&t, SECRET, now).is_ok());
    assert_eq!(authenticate_at(&Some(t), &None, SECRET, now), Err(AuthError::Unauthenticated));
}

#[test]
fn claims_last_one_hour() {
    let c = issue_claims(&ALICE_ID.to_string(), 1_000).unwrap();
    assert_eq!(c.sub, ALICE_ID);
    assert_eq!(c.iat, 1_000);
    assert_eq!(c.exp, 4_600);
    assert_eq!(c.exp - c.iat, TOKEN_LIFETIME_SECS);
    assert_eq!(issue_claims(&ALICE_ID.to_string(), -1).unwrap_err(), AuthError::Internal);
}

#[test]
fn register_application_acme() {
    let app = insert_new_application("acme".to_string());
    assert_eq!(app.app_name, "acme");
    assert_eq!(app.id.len(), 36);
    assert_eq!(app.id, app.id.to_lowercase());
    assert_eq!(&app.id[8..9], "-");
    assert_eq!(&app.id[14..15], "4");
}

#[test]
fn two_registrations_get_distinct_ids() {
    let a = insert_new_application("acme".to_string());
    let b = insert_new_application("acme".to_string());
    assert_ne!(a.id, b.id);
    assert_eq!(a.app_name, b.app_name);
}

#[test]
fn new_user_hides_password() {
    let acme = insert_new_application("acme".to_string());
    let body = NewUserSchema {
        username: "alice".to_string(),
        email: "a@x".to_string(),
        password: "s3cret".to_string(),
    };
    let u = insert_new_user(&vec![acme.clone()], &vec![], body, acme.id.clone()).unwrap();
    assert_ne!(u.password, "s3cret");
    assert!(verify_password("s3cret", &u.password));
    assert_eq!(u.application_id, acme.id);
    assert_eq!(u.created_at, u.updated_at);
    assert_eq!(u.id.len(), 36);
    let f = filter_user_record(&u);
    assert_eq!(f.id, u.id);
    assert_eq!(f.username, "alice");
    assert_eq!(f.email, "a@x");
    assert_eq!(f.created_at, u.created_at);
    let shown = format!("{:?}", f);
    assert!(!shown.contains("password"));
    assert!(!shown.contains(&u.password));
}

#[test]
fn login_then_list_users() {
    let acme = "11111111-2222-4333-8444-555555555555";
    let h = hash_password("s3cret").unwrap();
    let rows = vec![
        stored_user(ALICE_ID, "alice", &h, acme),
        stored_user(BOB_ID, "bob", &h, "other-app"),
    ];
    let body = LoginUserSchema { username: "alice".to_string(), password: "s3cret".to_string() };
    let before = unix_now();
    let token = login_user(&rows, &body, SECRET).unwrap();
    let c = decode_token(&token, SECRET, before).unwrap();
    assert_eq!(c.sub, ALICE_ID);
    assert_eq!(c.exp - c.iat, 3600);
    assert!(c.iat as i64 >= before && c.iat as i64 <= unix_now() + 1);
    let header = Some(format!("Bearer {}", token));
    let m = authenticate_request(&None, &header, SECRET).unwrap();
    assert_eq!(m.user_id, 0xa1a2a3a4b1b2c1c2d1d2d3d4d5d6d7d8);
    let listed = find_all_user_records(&rows, &acme.to_string());
    assert_eq!(listed.len(), 1);
    assert_eq!(listed[0].username, "alice");
    assert_eq!(listed[0].id, ALICE_ID);
}

#[test]
fn login_at_fixed_instant_is_exact() {
    let h = hash_password("s3cret").unwrap();
    let rows = vec![stored_user(ALICE_ID, "alice", &h, "acme")];
    let body = LoginUserSchema { username: "alice".to_string(), password: "s3cret".to_string() };
    let token = login_user_at(&rows, &body, SECRET, 5_000).unwrap();
    assert_eq!(token, token_for(ALICE_ID, 5_000, 8_600, SECRET));
    assert_eq!(login_user_at(&rows, &body, SECRET, -5), Err(AuthError::Internal));
}

#[test]
fn login_with_wrong_password_fails() {
    let h = hash_password("s3cret").unwrap();
    let rows = vec![stored_user(ALICE_ID, "alice", &h, "acme")];
    let body = LoginUserSchema { username: "alice".to_string(), password: "wrong".to_string() };
    let e = login_user(&rows, &body, SECRET).unwrap_err();
    assert_eq!(e, AuthError::InvalidCredentials);
    assert_eq!(e.status_code(), 400);
    assert_eq!(e.fail_body(), r#"{"status":"fail","message":"Invalid username or password"}"#);
    let nobody = LoginUserSchema { username: "carol".to_string(), password: "s3cret".to_string() };
    assert_eq!(login_user(&rows, &nobody, SECRET), Err(AuthError::InvalidCredentials));
}

#[test]
fn token_expiring_before_issue_is_rejected() {
    let now = unix_now() as u64;
    let t = token_for(ALICE_ID, now, now - 1, SECRET);
    let header = Some(format!("Bearer {}", t));
    let e = authenticate_request(&None, &header, SECRET).unwrap_err();
    assert_eq!(e, AuthError::Unauthenticated);
    assert_eq!(e.status_code(), 401);
    assert_eq!(
        e.fail_body(),
        r#"{"status":"fail","message":"You are not logged in, please provide token"}"#
    );
}

#[test]
fn user_lookup_by_name() {
    let rows = vec![
        stored_user(ALICE_ID, "alice", "h1", "acme"),
        stored_user(BOB_ID, "bob", "h2", "acme"),
        stored_user("33333333-2222-4333-8444-555555555555", "bob", "h3", "other"),
    ];
    let a = find_user_record(&rows, &"alice".to_string()).unwrap();
    assert_eq!(a.id, ALICE_ID);
    assert_eq!(a.password, "h1");
    assert_eq!(find_user_record(&rows, &"carol".to_string()).unwrap_err(), AuthError::NotFound);
    assert_eq!(find_user_record(&rows, &"bob".to_string()).unwrap_err(), AuthError::Conflict);
    assert_eq!(find_user_record(&vec![], &"bob".to_string()).unwrap_err(), AuthError::NotFound);
}

#[test]
fn users_listed_per_application_in_order() {
    let rows = vec![
        stored_user("id-1", "u1", "h", "acme"),
        stored_user("id-2", "u2", "h", "other"),
        stored_user("id-3", "u3", "h", "acme"),
    ];
    let listed = find_all_user_records(&rows, &"acme".to_string());
    let ids: Vec<&str> = listed.iter().map(|u| u.id.as_str()).collect();
    assert_eq!(ids, vec!["id-1", "id-3"]);
    assert!(find_all_user_records(&rows, &"none".to_string()).is_empty());
    assert!(find_all_user_records(&vec![], &"acme".to_string()).is_empty());
}

#[test]
fn error_kinds_map_to_status_and_body() {
    let cases = [
        (AuthError::InvalidCredentials, 400, "Invalid username or password"),
        (AuthError::Unauthenticated, 401, "You are not logged in, please provide token"),
        (AuthError::NotFound, 404, "Not found"),
        (AuthError::Conflict, 409, "Already exists"),
        (AuthError::Internal, 500, "Internal server error"),
    ];
    for (e, code, msg) in cases {
        assert_eq!(e.status_code(), code);
        assert_eq!(e.message(), msg);
        assert_eq!(e.fail_body(), format!(r#"{{"status":"fail","message":"{}"}}"#, msg));
    }
}

#[test]
fn new_user_needs_known_app_and_free_name() {
    let acme = Application { id: "app-1".to_string(), app_name: "acme".to_string() };
    let other = Application { id: "app-2".to_string(), app_name: "other".to_string() };
    let apps = vec![acme.clone(), other.clone()];
    let users = vec![stored_user(ALICE_ID, "alice", "h", "app-1")];
    let body = |name: &str| NewUserSchema {
        username: name.to_string(),
        email: "e@x".to_string(),
        password: "pw".to_string(),
    };
    let alice = "alice".to_string();
    assert_eq!(admit_new_user(&apps, &users, &"app-9".to_string(), &alice), Err(AuthError::NotFound));
    assert_eq!(admit_new_user(&apps, &users, &"app-1".to_string(), &alice), Err(AuthError::Conflict));
    assert_eq!(admit_new_user(&apps, &users, &"app-2".to_string(), &alice), Ok(()));
    assert_eq!(admit_new_user(&vec![], &vec![], &"app-1".to_string(), &alice), Err(AuthError::NotFound));
    assert_eq!(
        insert_new_user(&apps, &users, body("alice"), "app-9".to_string()).unwrap_err(),
        AuthError::NotFound
    );
    assert_eq!(
        insert_new_user(&apps, &users, body("alice"), "app-1".to_string()).unwrap_err(),
        AuthError::Conflict
    );
    let u = insert_new_user(&apps, &users, body("alice"), "app-2".to_string()).unwrap();
    assert_eq!(u.application_id, "app-2");
    assert_eq!(u.username, "alice");
}

#[test]
fn long_password_is_hashed() {
    let long = "p".repeat(1024);
    let h = hash_password(&long).unwrap();
    assert!(verify_password(&long, &h));
    assert!(!verify_password(&"p".repeat(1023), &h));
}
