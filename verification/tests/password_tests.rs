use user_auth::errors::AppError;
use user_auth::password::{accept_hash, accept_verdict, hash, verify};

const PASSWORD_HASH: &str = "$2a$04$UuTkLRZZ6QofpDOlMz32MuuxEHA43WOemOYHPz6.SjsVsyO1tDU96";

#[test]
fn verify_accepts_the_right_password() {
    assert_eq!(verify("password", PASSWORD_HASH), Ok(true));
}

#[test]
fn verify_reports_a_mismatch_as_false() {
    assert_eq!(verify("Password", PASSWORD_HASH), Ok(false));
}

#[test]
fn verify_fails_on_a_malformed_hash() {
    assert_eq!(verify("password", "not-a-hash"), Err(AppError::InternalError));
}

#[test]
fn hash_differs_from_plaintext_and_verifies() {
    let hashed = hash("hunter2").unwrap();
    assert_ne!(hashed, "hunter2");
    assert_eq!(hashed.len(), 60);
    assert!(hashed.starts_with("$2b$12$"));
    assert_eq!(verify("hunter2", &hashed), Ok(true));
}

#[test]
fn hashing_twice_gives_different_values() {
    let first = hash("same password").unwrap();
    let second = hash("same password").unwrap();
    assert_ne!(first, second);
}

#[test]
fn accept_hash_hands_on_what_was_produced() {
    assert_eq!(accept_hash(Some("other".to_string())), Ok("other".to_string()));
    assert_eq!(accept_hash(None), Err(AppError::InternalError));
}

#[test]
fn accept_verdict_maps_each_answer() {
    assert_eq!(accept_verdict(Some(true)), Ok(true));
    assert_eq!(accept_verdict(Some(false)), Ok(false));
    assert_eq!(accept_verdict(None), Err(AppError::InternalError));
}
