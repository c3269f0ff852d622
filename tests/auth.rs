use book_mail_api::auth::{
    authenticate, authenticate_at, decode_token, decode_token_at, get_token_from_headers,
    hash_password, verify_password, Claims, DEFAULT_TOKEN_LIFETIME,
};
use book_mail_api::error::AppError;

const SECRET: &[u8] = b"a-test-signing-secret";
const NOW: i64 = 1_700_000_000;

fn token_for(sub: &str, iat: i64, lifetime: i64) -> String {
    Claims::issued_at(sub.to_string(), "user".to_string(), iat, lifetime).encode(SECRET).unwrap()
}

#[test]
fn issued_claims_expire_after_lifetime() {
    let c = Claims::issued_at("u1".to_string(), "admin".to_string(), NOW, 3600);
    assert_eq!(c.sub, "u1");
    assert_eq!(c.role, "admin");
    assert_eq!(c.iat, NOW);
    assert_eq!(c.exp, NOW + 3600);
    assert_eq!(DEFAULT_TOKEN_LIFETIME, 3600);
}

#[test]
fn expiry_saturates_at_the_i64_range() {
    let c = Claims::issued_at("u".to_string(), "user".to_string(), i64::MAX - 10, 3600);
    assert_eq!(c.exp, i64::MAX);
    let c = Claims::issued_at("u".to_string(), "user".to_string(), i64::MIN + 10, -3600);
    assert_eq!(c.exp, i64::MIN);
}

#[test]
fn claims_new_uses_the_current_time() {
    let c = Claims::new("u".to_string(), "user".to_string(), 60);
    assert_eq!(c.exp, c.iat + 60);
    assert!(c.iat > NOW);
}

#[test]
fn token_validates_before_expiry_only() {
    let t = token_for("u1", NOW, 3600);
    assert_eq!(t.split('.').count(), 3);
    let c = decode_token_at(&t, SECRET, NOW).unwrap();
    assert_eq!(c, Claims { sub: "u1".to_string(), role: "user".to_string(), iat: NOW, exp: NOW + 3600 });
    assert!(decode_token_at(&t, SECRET, NOW + 3599).is_ok());
    assert_eq!(decode_token_at(&t, SECRET, NOW + 3600), Err(AppError::InvalidToken));
    assert_eq!(decode_token_at(&t, SECRET, NOW + 100_000), Err(AppError::InvalidToken));
}

#[test]
fn token_from_another_secret_fails() {
    let t = token_for("u1", NOW, 3600);
    assert_eq!(decode_token_at(&t, b"another-secret", NOW), Err(AppError::InvalidToken));
}

#[test]
fn malformed_token_fails() {
    assert_eq!(decode_token_at("not-a-token", SECRET, NOW), Err(AppError::InvalidToken));
    assert_eq!(decode_token_at("", SECRET, NOW), Err(AppError::InvalidToken));
}

#[test]
fn fresh_token_validates_now() {
    let c = Claims::new("u2".to_string(), "user".to_string(), 3600);
    let t = c.encode(SECRET).unwrap();
    assert_eq!(decode_token(&t, SECRET), Ok(c));
    let old = token_for("u2", NOW - 7200, 3600);
    assert_eq!(decode_token(&old, SECRET), Err(AppError::InvalidToken));
}

#[test]
fn bearer_header_is_parsed() {
    assert_eq!(get_token_from_headers(Some("Bearer abc.def")), Ok("abc.def".to_string()));
    assert_eq!(get_token_from_headers(Some("Bearer ")), Ok(String::new()));
    assert_eq!(get_token_from_headers(None), Err(AppError::Unauthorized));
    assert_eq!(get_token_from_headers(Some("Basic abc")), Err(AppError::Unauthorized));
    assert_eq!(get_token_from_headers(Some("bearer abc")), Err(AppError::Unauthorized));
    assert_eq!(get_token_from_headers(Some("Bearer")), Err(AppError::Unauthorized));
}

#[test]
fn protected_routes_reject_each_failure() {
    let t = token_for("u1", NOW, 3600);
    let header = format!("Bearer {}", t);
    assert_eq!(authenticate_at(None, SECRET, NOW), Err(AppError::Unauthorized));
    assert_eq!(authenticate_at(Some(&format!("Token {}", t)), SECRET, NOW), Err(AppError::Unauthorized));
    assert_eq!(authenticate_at(Some("Bearer junk"), SECRET, NOW), Err(AppError::InvalidToken));
    assert_eq!(authenticate_at(Some(&header), SECRET, NOW + 3600), Err(AppError::InvalidToken));
    assert_eq!(authenticate_at(Some(&header), SECRET, NOW).unwrap().sub, "u1");
    let fresh = Claims::new("u3".to_string(), "user".to_string(), 3600).encode(SECRET).unwrap();
    assert_eq!(authenticate(Some(&format!("Bearer {}", fresh)), SECRET).unwrap().sub, "u3");
    assert_eq!(authenticate(Some(&header), SECRET), Err(AppError::InvalidToken));
}

#[test]
fn password_hash_verifies() {
    let h = hash_password("longenough").unwrap();
    assert_ne!(h, "longenough");
    assert!(h.starts_with("$2"));
    assert_eq!(verify_password("longenough", &h), Ok(true));
    assert_eq!(verify_password("wrong-password", &h), Ok(false));
}

#[test]
fn unreadable_hash_is_internal_error() {
    let r = verify_password("longenough", "not-a-bcrypt-hash");
    assert!(matches!(r, Err(AppError::InternalServerError(_))));
}
