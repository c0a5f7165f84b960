use std::time::{SystemTime, UNIX_EPOCH};

use backend::auth::{login, LoginPayload};
use backend::error::ApiError;
use backend::jwt::verify_jwt;
use backend::member::Member;
use backend::utils::{check_password, gen_id, gen_otp, hash_password, is_valid_argon2id, PasswordCheck};

fn now_secs() -> u64 {
    SystemTime::now().duration_since(UNIX_EPOCH).unwrap().as_secs()
}

fn member_with_password(password: &str) -> Member {
    Member {
        id: "AB1234".to_string(),
        phone: "0123456789".to_string(),
        password: hash_password(&password.to_string()).expect("Could not hash password."),
        email: Some("john.doe@email.com".to_string()),
        first_name: Some("John".to_string()),
        last_name: Some("Doe".to_string()),
        is_admin: false,
    }
}

#[test]
fn gen_id_shape() {
    for _ in 0..50 {
        let id = gen_id();
        assert_eq!(id.len(), 6);
        assert!(id.chars().all(|c| c.is_ascii_digit() || c.is_ascii_uppercase()));
        assert!(id.chars().any(|c| c.is_ascii_digit()));
        assert!(id.chars().any(|c| c.is_ascii_uppercase()));
    }
}

#[test]
fn gen_otp_shape() {
    for _ in 0..50 {
        let otp = gen_otp();
        assert_eq!(otp.len(), 6);
        assert!(otp.chars().all(|c| c.is_ascii_digit()));
    }
}

#[test]
fn fresh_hash_is_valid_argon2id() {
    let hash = hash_password(&"hunter2".to_string()).expect("Could not hash password.");
    assert!(hash.starts_with("$argon2id$v=19$"));
    assert!(is_valid_argon2id(&hash));
}

#[test]
fn foreign_hashes_are_not_valid_argon2id() {
    assert!(!is_valid_argon2id(""));
    assert!(!is_valid_argon2id("plaintext"));
    // A bcrypt-shaped string is refused for its algorithm identifier alone.
    assert!(!is_valid_argon2id("$2b$12$R9h/cIPz0gi.URNNX3kh2OPST9/PgBkqquzi.Ss7KIUgO2t0jWMUW"));
}

#[test]
fn check_password_tells_the_three_outcomes_apart() {
    let hash = hash_password(&"hunter2".to_string()).expect("Could not hash password.");
    assert_eq!(check_password("hunter2", &hash), PasswordCheck::Match);
    assert_eq!(check_password("hunter3", &hash), PasswordCheck::Mismatch);
    assert_eq!(check_password("hunter2", "not-a-hash"), PasswordCheck::BadHash);
}

#[test]
fn login_unknown_member_is_not_found() {
    let payload = LoginPayload { phone: "0123456789".to_string(), password: "pw".to_string() };
    let r = login(None, &payload, b"top-secret", now_secs());
    assert!(matches!(r, Err(ApiError::NotFound)));
}

#[test]
fn login_wrong_password_is_not_found() {
    let m = member_with_password("hunter2");
    let payload = LoginPayload { phone: m.phone.clone(), password: "hunter3".to_string() };
    let r = login(Some(m), &payload, b"top-secret", now_secs());
    assert!(matches!(r, Err(ApiError::NotFound)));
}

#[test]
fn login_with_unreadable_stored_hash_is_not_found() {
    let mut m = member_with_password("hunter2");
    m.password = "plaintext".to_string();
    let payload = LoginPayload { phone: m.phone.clone(), password: "hunter2".to_string() };
    let r = login(Some(m), &payload, b"top-secret", now_secs());
    assert!(matches!(r, Err(ApiError::NotFound)));
}

#[test]
fn login_success_answers_with_a_working_token() {
    let m = member_with_password("hunter2");
    let payload = LoginPayload { phone: m.phone.clone(), password: "hunter2".to_string() };
    let s = login(Some(m), &payload, b"top-secret", now_secs()).unwrap();
    assert_eq!(s.id, "AB1234");
    assert_eq!(s.phone, "0123456789");
    assert!(s.is_profile_complete);
    assert!(!s.is_admin);
    let claims = verify_jwt(b"top-secret", &s.token).unwrap();
    assert_eq!(claims.sub, "AB1234");
    assert_eq!(claims.phone, "0123456789");
    assert!(claims.is_profile_complete);
    assert!(!claims.is_admin);
}

#[test]
fn login_incomplete_profile_is_reported_in_the_claims() {
    let mut m = member_with_password("hunter2");
    m.email = None;
    let payload = LoginPayload { phone: m.phone.clone(), password: "hunter2".to_string() };
    let s = login(Some(m), &payload, b"top-secret", now_secs()).unwrap();
    assert!(!s.is_profile_complete);
}
