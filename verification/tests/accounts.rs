use edu_academy::auth::{account_for, authenticate, login, register, registered, Registration};
use edu_academy::clock::{format_rfc3339, Timestamp};
use edu_academy::ids::parse_uuid;
use edu_academy::password::{hash_password, verify_password};
use edu_academy::records::{Failure, LoginRequest, RegisterRequest, UserRow};
use edu_academy::setup::{admin_row_for, init_database, ADMIN_EMAIL, ADMIN_PASSWORD};
use edu_academy::text::uuid_to_hyphenated;

fn request() -> RegisterRequest {
    RegisterRequest {
        email: "ada@example.com".to_string(),
        username: "ada".to_string(),
        full_name: "Ada Lovelace".to_string(),
        password: "analytical".to_string(),
    }
}

fn status_of(f: &Failure) -> (u16, String) {
    match f {
        Failure::Respond(e) => (e.status, e.message.clone()),
        Failure::Abort(m) => (0, m.clone()),
    }
}

#[test]
fn registration_refused_when_taken() {
    let r = register(&request(), Ok(1));
    let f = r.err().unwrap();
    assert_eq!(status_of(&f), (400, "Email or username already exists".to_string()));
    let r = register(&request(), Ok(3));
    assert_eq!(status_of(&r.err().unwrap()).0, 400);
}

#[test]
fn registration_count_failure_is_internal_error() {
    let r = register(&request(), Err("database is locked".to_string()));
    assert_eq!(status_of(&r.err().unwrap()), (500, "database is locked".to_string()));
}

fn new_account() -> Registration {
    register(&request(), Ok(0)).unwrap()
}

#[test]
fn registration_prepares_account() {
    let reg = new_account();
    assert_eq!(reg.row.email, "ada@example.com");
    assert_eq!(reg.row.username, "ada");
    assert_eq!(reg.row.full_name, "Ada Lovelace");
    assert_eq!(reg.row.is_admin, 0);
    assert!(!reg.user.is_admin);
    assert_eq!(reg.row.id, uuid_to_hyphenated(reg.user.id));
    assert_eq!(parse_uuid(&reg.row.id), Ok(reg.user.id));
    assert_eq!(Some(reg.row.created_at.clone()), format_rfc3339(reg.user.created_at));
    assert_ne!(reg.row.password_hash, "analytical");
    assert_eq!(verify_password("analytical", &reg.row.password_hash), Ok(true));
    assert!(reg.row.password_hash.starts_with("$2b$12$"));
    assert_eq!(uuid::Uuid::from_u128(reg.user.id).get_version_num(), 4);
}

#[test]
fn registered_answer_carries_token() {
    let reg = new_account();
    let id = reg.user.id;
    let resp = registered(reg, Ok(())).unwrap();
    assert_eq!(resp.user.id, id);
    assert_eq!(resp.user.email, "ada@example.com");
    assert_eq!(resp.token.split('.').count(), 3);
}

#[test]
fn registered_store_failure_is_internal_error() {
    let reg = new_account();
    let r = registered(reg, Err("UNIQUE constraint failed".to_string()));
    assert_eq!(status_of(&r.err().unwrap()), (500, "UNIQUE constraint failed".to_string()));
}

#[test]
fn registered_account_signs_in_with_its_password() {
    let reg = new_account();
    let user = reg.user.clone();
    let req = LoginRequest { email: "ada@example.com".to_string(), password: "analytical".to_string() };
    let resp = login(&req, Ok(reg.row.clone())).unwrap();
    assert_eq!(resp.user.id, user.id);
    assert_eq!(resp.user.email, user.email);
    assert_eq!(resp.user.username, user.username);
    assert_eq!(resp.user.full_name, user.full_name);
    assert_eq!(resp.user.is_admin, user.is_admin);
    assert_eq!(resp.user.created_at, user.created_at);
    assert!(!resp.token.is_empty());
}

#[test]
fn wrong_password_is_unauthorized() {
    let reg = new_account();
    let req = LoginRequest { email: "ada@example.com".to_string(), password: "difference".to_string() };
    let r = authenticate(&req, Ok(reg.row));
    assert_eq!(status_of(&r.err().unwrap()), (401, "Invalid credentials".to_string()));
}

#[test]
fn unknown_account_is_unauthorized() {
    let req = LoginRequest { email: "nobody@example.com".to_string(), password: "x".to_string() };
    let r = login(&req, Err("no rows returned".to_string()));
    assert_eq!(status_of(&r.err().unwrap()), (401, "Invalid credentials".to_string()));
}

fn stored_row(id: &str, hash: &str, created_at: &str, is_admin: i64) -> UserRow {
    UserRow {
        id: id.to_string(),
        email: "b@example.com".to_string(),
        username: "b".to_string(),
        full_name: "B".to_string(),
        password_hash: hash.to_string(),
        is_admin,
        created_at: created_at.to_string(),
    }
}

#[test]
fn unreadable_stored_account_is_internal_error() {
    let hash = hash_password("pw", 4).unwrap();
    let req = LoginRequest { email: "b@example.com".to_string(), password: "pw".to_string() };
    let bad_id = stored_row("nope", &hash, "2015-05-15T00:00:00+00:00", 0);
    let (status, msg) = status_of(&authenticate(&req, Ok(bad_id)).err().unwrap());
    assert_eq!(status, 500);
    assert_eq!(msg, uuid::Uuid::parse_str("nope").unwrap_err().to_string());
    let bad_time = stored_row("550e8400-e29b-41d4-a716-446655440000", &hash, "soon", 0);
    assert_eq!(status_of(&authenticate(&req, Ok(bad_time)).err().unwrap()).0, 500);
    let bad_hash = stored_row("550e8400-e29b-41d4-a716-446655440000", "plain", "soon", 0);
    assert_eq!(status_of(&authenticate(&req, Ok(bad_hash)).err().unwrap()).0, 500);
}

#[test]
fn stored_flag_one_is_administrator() {
    let hash = hash_password("pw", 4).unwrap();
    let req = LoginRequest { email: "b@example.com".to_string(), password: "pw".to_string() };
    let row = stored_row("550e8400-e29b-41d4-a716-446655440000", &hash, "2015-05-15T00:00:00+00:00", 1);
    let u = authenticate(&req, Ok(row)).unwrap();
    assert!(u.is_admin);
    assert_eq!(u.id, 0x550e8400e29b41d4a716446655440000);
    assert_eq!(u.created_at, Timestamp { secs: 1431648000, nanos: 0 });
    let row2 = stored_row("550e8400-e29b-41d4-a716-446655440000", &hash, "2015-05-15T00:00:00+00:00", 2);
    assert!(!authenticate(&req, Ok(row2)).unwrap().is_admin);
}

#[test]
fn default_admin_only_without_admins() {
    assert!(init_database(1).unwrap().is_none());
    assert!(init_database(5).unwrap().is_none());
    assert!(init_database(0).unwrap().is_some());
}

#[test]
fn default_admin_signs_in() {
    let row = init_database(0).unwrap().unwrap();
    assert_eq!(row.email, ADMIN_EMAIL);
    assert_eq!(row.username, "admin");
    assert_eq!(row.full_name, "Admin User");
    assert_eq!(row.is_admin, 1);
    let req = LoginRequest { email: ADMIN_EMAIL.to_string(), password: ADMIN_PASSWORD.to_string() };
    let resp = login(&req, Ok(row)).unwrap();
    assert!(resp.user.is_admin);
    assert_eq!(resp.user.email, "admin@edu.com");
}

#[test]
fn refusals_look_alike() {
    let reg = new_account();
    let req = LoginRequest { email: "ada@example.com".to_string(), password: "wrong".to_string() };
    let unknown = status_of(&authenticate(&req, Err("no rows returned".to_string())).err().unwrap());
    let wrong = status_of(&authenticate(&req, Ok(reg.row)).err().unwrap());
    assert_eq!(unknown, wrong);
    assert_eq!(unknown.0, 401);
}

#[test]
fn account_made_from_hash_outcome() {
    let reg = account_for(&request(), Ok("stored-hash".to_string())).unwrap();
    assert_eq!(reg.row.password_hash, "stored-hash");
    assert_eq!(reg.row.email, "ada@example.com");
    assert_eq!(reg.row.is_admin, 0);
    assert_eq!(reg.row.id, uuid_to_hyphenated(reg.user.id));
    let f = account_for(&request(), Err("random source unavailable".to_string())).err().unwrap();
    assert_eq!(status_of(&f), (500, "random source unavailable".to_string()));
}

#[test]
fn admin_row_made_from_hash_outcome() {
    let row = admin_row_for(Ok("h".to_string())).unwrap();
    assert_eq!(row.password_hash, "h");
    assert_eq!(row.is_admin, 1);
    assert_eq!(row.full_name, "Admin User");
    let f = admin_row_for(Err("no entropy".to_string())).err().unwrap();
    assert_eq!(status_of(&f), (0, "no entropy".to_string()));
}
