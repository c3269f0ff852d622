use book_mail_api::accounts::{finish_signup, signin, signin_at, signup, PublicUser};
use book_mail_api::auth::{decode_token_at, verify_password};
use book_mail_api::error::{AppError, FieldError, StoreError};
use book_mail_api::models::{CreateUser, LoginRequest, User};

const SECRET: &[u8] = b"a-test-signing-secret";
const NOW: i64 = 1_700_000_000;

fn ana() -> CreateUser {
    CreateUser { username: "ana".to_string(), email: "a@x.com".to_string(), password: "longenough".to_string() }
}

fn stored(hash: &str) -> User {
    User {
        id: 1,
        username: "ana".to_string(),
        email: "a@x.com".to_string(),
        role: "user".to_string(),
        password_hash: hash.to_string(),
    }
}

#[test]
fn signup_scenario() {
    let n = signup(&ana()).unwrap();
    assert_eq!(n.username, "ana");
    assert_eq!(n.email, "a@x.com");
    assert_eq!(n.role, "user");
    assert_eq!(verify_password("longenough", &n.password_hash), Ok(true));
    let created = finish_signup(Ok(stored(&n.password_hash))).unwrap();
    assert_eq!(
        created,
        PublicUser { id: 1, username: "ana".to_string(), email: "a@x.com".to_string(), role: "user".to_string() }
    );
    let again = finish_signup(Err(StoreError { unique_violation: true, detail: "users_email_key".to_string() }));
    let e = again.unwrap_err();
    assert_eq!(e, AppError::Conflict("Username atau email sudah digunakan".to_string()));
    assert_eq!(e.status_code(), 409);
}

#[test]
fn signup_rejects_invalid_payload() {
    let p = CreateUser { username: "ana".to_string(), email: "a@x.com".to_string(), password: "short".to_string() };
    assert_eq!(signup(&p), Err(AppError::ValidationError(vec![FieldError { field: "password".to_string(), message: "Password minimal 8 karakter".to_string() }])));
}

#[test]
fn signup_store_failure() {
    let r = finish_signup(Err(StoreError { unique_violation: false, detail: "down".to_string() }));
    assert_eq!(r, Err(AppError::DatabaseError("down".to_string())));
}

#[test]
fn signin_scenario() {
    let n = signup(&ana()).unwrap();
    let good = LoginRequest { email: "a@x.com".to_string(), password: "longenough".to_string() };
    let t = signin_at(&good, Ok(Some(stored(&n.password_hash))), SECRET, 3600, NOW).unwrap();
    let c = decode_token_at(&t, SECRET, NOW).unwrap();
    assert_eq!(c.sub, "00000000-0000-0000-0000-000000000001");
    assert_eq!(c.role, "user");
    assert_eq!(c.iat, NOW);
    assert_eq!(c.exp, NOW + 3600);
    let wrong = LoginRequest { email: "a@x.com".to_string(), password: "wrongpassword".to_string() };
    let e = signin_at(&wrong, Ok(Some(stored(&n.password_hash))), SECRET, 3600, NOW).unwrap_err();
    assert_eq!(e, AppError::InvalidCredentials);
    assert_eq!(e.status_code(), 401);
}

#[test]
fn signin_failures_collapse() {
    let good = LoginRequest { email: "a@x.com".to_string(), password: "longenough".to_string() };
    assert_eq!(signin_at(&good, Ok(None), SECRET, 3600, NOW), Err(AppError::InvalidCredentials));
    let down = Err(StoreError { unique_violation: false, detail: "down".to_string() });
    assert_eq!(signin_at(&good, down, SECRET, 3600, NOW), Err(AppError::InvalidCredentials));
    let broken = Ok(Some(stored("not-a-hash")));
    assert_eq!(signin_at(&good, broken, SECRET, 3600, NOW), Err(AppError::InvalidCredentials));
    let bad = LoginRequest { email: "nobody".to_string(), password: "x".to_string() };
    assert_eq!(signin_at(&bad, Ok(None), SECRET, 3600, NOW), Err(AppError::ValidationError(vec![FieldError { field: "email".to_string(), message: "Alamat email tidak valid".to_string() }])));
}

#[test]
fn signin_now_issues_current_token() {
    let n = signup(&ana()).unwrap();
    let good = LoginRequest { email: "a@x.com".to_string(), password: "longenough".to_string() };
    let t = signin(&good, Ok(Some(stored(&n.password_hash))), SECRET, 3600).unwrap();
    assert!(book_mail_api::auth::decode_token(&t, SECRET).is_ok());
}

#[test]
fn token_subject_is_the_hyphenated_uuid() {
    let n = signup(&ana()).unwrap();
    let mut u = stored(&n.password_hash);
    u.id = 0x0123456789abcdef0123456789abcdef;
    let good = LoginRequest { email: "a@x.com".to_string(), password: "longenough".to_string() };
    let t = signin_at(&good, Ok(Some(u)), SECRET, 60, NOW).unwrap();
    let c = decode_token_at(&t, SECRET, NOW).unwrap();
    assert_eq!(c.sub, "01234567-89ab-cdef-0123-456789abcdef");
}
