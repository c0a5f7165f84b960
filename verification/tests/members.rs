use std::time::{SystemTime, UNIX_EPOCH};

use backend::auth::refresh_token;
use backend::error::ApiError;
use backend::jwt::verify_jwt;
use backend::member::{
    is_profile_complete, member_found, normalize_optional, one_row_updated, page_offset,
    password_reset_check,
    prepare_member_update, prepare_member_update_with_password, prepare_new_member,
    update_password_check, EditPasswordPayload, Member, MemberPayload, PasswordResetToken,
    UpdateMemberPayload,
};
use backend::utils::{check_password, hash_password, is_valid_argon2id, PasswordCheck};

fn now_secs() -> u64 {
    SystemTime::now().duration_since(UNIX_EPOCH).unwrap().as_secs()
}

fn payload(id: &str, email: &str, first: &str, last: &str) -> MemberPayload {
    MemberPayload {
        id: id.to_string(),
        phone: "0123456789".to_string(),
        password: "hunter2".to_string(),
        email: email.to_string(),
        first_name: first.to_string(),
        last_name: last.to_string(),
    }
}

#[test]
fn normalize_optional_blanks_empty_fields() {
    assert_eq!(normalize_optional("".to_string()), None);
    assert_eq!(normalize_optional("x".to_string()), Some("x".to_string()));
}

#[test]
fn profile_complete_needs_email_and_both_names() {
    let mut m = Member {
        id: "AB1234".to_string(),
        phone: "0123456789".to_string(),
        password: String::new(),
        email: Some("john.doe@email.com".to_string()),
        first_name: Some("John".to_string()),
        last_name: Some("Doe".to_string()),
        is_admin: false,
    };
    assert!(is_profile_complete(&m));
    m.first_name = None;
    assert!(!is_profile_complete(&m));
    m.first_name = Some("John".to_string());
    m.email = None;
    assert!(!is_profile_complete(&m));
}

#[test]
fn one_row_updated_accepts_exactly_one() {
    assert!(one_row_updated(1).is_ok());
    assert!(matches!(one_row_updated(0), Err(ApiError::NotFound)));
    assert!(matches!(one_row_updated(2), Err(ApiError::NotFound)));
}

#[test]
fn new_member_keeps_a_given_id() {
    let (m, otp) = prepare_new_member(payload("AB1234", "john.doe@email.com", "John", "Doe"))
        .expect("Could not hash password.");
    assert_eq!(m.id, "AB1234");
    assert_eq!(m.phone, "0123456789");
    assert!(!m.is_admin);
    assert_eq!(m.email, Some("john.doe@email.com".to_string()));
    assert_eq!(m.first_name, Some("John".to_string()));
    assert_eq!(m.last_name, Some("Doe".to_string()));
    assert_eq!(otp.len(), 6);
    assert!(otp.chars().all(|c| c.is_ascii_digit()));
    // The stored password is the hash of the one-time password.
    assert!(is_valid_argon2id(&m.password));
    assert_eq!(check_password(&otp, &m.password), PasswordCheck::Match);
}

#[test]
fn new_member_with_empty_id_gets_a_fresh_one() {
    let (m, _) = prepare_new_member(payload("", "", "", "")).expect("Could not hash password.");
    assert_eq!(m.id.len(), 6);
    assert!(m.id.chars().all(|c| c.is_ascii_digit() || c.is_ascii_uppercase()));
    assert_eq!(m.email, None);
    assert_eq!(m.first_name, None);
    assert_eq!(m.last_name, None);
}

#[test]
fn member_update_blanks_password_and_empty_fields() {
    let m = prepare_member_update(UpdateMemberPayload {
        id: "AB1234".to_string(),
        phone: "9876543210".to_string(),
        email: "jane.does@email.com".to_string(),
        first_name: "Jane".to_string(),
        last_name: "".to_string(),
    });
    assert_eq!(m.id, "AB1234");
    assert_eq!(m.phone, "9876543210");
    assert_eq!(m.password, "");
    assert_eq!(m.email, Some("jane.does@email.com".to_string()));
    assert_eq!(m.first_name, Some("Jane".to_string()));
    assert_eq!(m.last_name, None);
    assert!(!m.is_admin);
}

#[test]
fn member_update_with_password_hashes_it() {
    let m = prepare_member_update_with_password(payload("AB1234", "", "Jane", "Does"))
        .expect("Could not hash the password.");
    assert!(is_valid_argon2id(&m.password));
    assert_eq!(check_password("hunter2", &m.password), PasswordCheck::Match);
    assert_eq!(m.email, None);
    assert_eq!(m.first_name, Some("Jane".to_string()));
}

#[test]
fn password_change_rules() {
    let hash = hash_password(&"hunter2".to_string()).expect("Could not hash password.");
    let member = Member {
        id: "AB1234".to_string(),
        phone: "0123456789".to_string(),
        password: hash,
        email: None,
        first_name: None,
        last_name: None,
        is_admin: false,
    };
    let edit = |cur: &str, new: &str| EditPasswordPayload {
        id: "AB1234".to_string(),
        current_password: cur.to_string(),
        new_password: new.to_string(),
    };
    assert!(update_password_check(&member, &edit("hunter2", "hunter3")).is_ok());
    assert!(matches!(
        update_password_check(&member, &edit("wrong", "hunter3")),
        Err(ApiError::WrongCredentials)
    ));
    assert!(matches!(
        update_password_check(&member, &edit("hunter2", "hunter2")),
        Err(ApiError::NewPasswordMustBeDifferent)
    ));
    let mut bad = member;
    bad.password = "not-a-hash".to_string();
    assert!(matches!(
        update_password_check(&bad, &edit("hunter2", "hunter3")),
        Err(ApiError::NotFound)
    ));
}

#[test]
fn reset_token_rules() {
    let token = |expires_at: i64| PasswordResetToken {
        token: 0x67e5504410b1426f9247bb680e5fe0c8,
        member_id: "AB1234".to_string(),
        expires_at,
    };
    assert!(matches!(password_reset_check(None, 1_000), Err(ApiError::TokenExpired)));
    assert!(matches!(password_reset_check(Some(token(999)), 1_000), Err(ApiError::TokenExpired)));
    // A token expiring this very second still works, and the grant carries
    // the token back for the caller to consume.
    let granted = password_reset_check(Some(token(1_000)), 1_000).unwrap();
    assert_eq!(granted.member_id, "AB1234");
    assert_eq!(granted.token, 0x67e5504410b1426f9247bb680e5fe0c8);
    assert_eq!(password_reset_check(Some(token(2_000)), 1_000).unwrap().member_id, "AB1234");
}

#[test]
fn refreshed_token_carries_the_current_record() {
    let member = Member {
        id: "AB1234".to_string(),
        phone: "0123456789".to_string(),
        password: String::new(),
        email: Some("john.doe@email.com".to_string()),
        first_name: Some("John".to_string()),
        last_name: Some("Doe".to_string()),
        is_admin: true,
    };
    let now = now_secs();
    let s = refresh_token(&member, b"top-secret", now);
    assert!(s.is_profile_complete);
    assert!(s.is_admin);
    let claims = verify_jwt(b"top-secret", &s.token).unwrap();
    assert_eq!(claims.sub, "AB1234");
    assert!(claims.is_admin);
    assert_eq!(claims.iat, now);
}

#[test]
fn page_offset_counts_pages_from_one() {
    assert_eq!(page_offset(1, 20), 0);
    assert_eq!(page_offset(2, 20), 20);
    assert_eq!(page_offset(5, 7), 28);
}

#[test]
fn member_lookup_failure_is_not_found() {
    assert!(matches!(member_found(None), Err(ApiError::NotFound)));
    let m = Member {
        id: "AB1234".to_string(),
        phone: "0123456789".to_string(),
        password: String::new(),
        email: None,
        first_name: None,
        last_name: None,
        is_admin: false,
    };
    assert_eq!(member_found(Some(m)).unwrap().id, "AB1234");
}
