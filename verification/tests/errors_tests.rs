use user_auth::errors::AppError;
use user_auth::gateway::GatewayError;
use user_auth::response::Body;

fn failure(code: Option<&str>) -> GatewayError {
    GatewayError { code: code.map(|c| c.to_string()), message: "connection reset".to_string() }
}

#[test]
fn unauthorized_is_401() {
    assert_eq!(AppError::Unauthorized.status_code(), 401);
}

#[test]
fn every_other_error_is_500() {
    assert_eq!(AppError::NotFound.status_code(), 500);
    assert_eq!(AppError::Conflict.status_code(), 500);
    assert_eq!(AppError::InternalError.status_code(), 500);
    assert_eq!(AppError::DbError(failure(None)).status_code(), 500);
}

#[test]
fn messages_are_fixed_texts() {
    assert_eq!(AppError::NotFound.message(), "User tidak ditemukan");
    assert_eq!(AppError::Conflict.message(), "Email sudah terdaftar");
    assert_eq!(AppError::Unauthorized.message(), "Email atau password salah");
    assert_eq!(AppError::InternalError.message(), "Terjadi kesalahan internal");
}

#[test]
fn a_persistence_failure_does_not_show_its_detail() {
    let error = AppError::DbError(failure(Some("08S01")));
    assert_eq!(error.message(), "Database error");
    assert!(!error.message().contains("connection reset"));
}

#[test]
fn error_response_carries_status_and_message() {
    let reply = AppError::Unauthorized.error_response();
    assert_eq!(reply.status, 401);
    match reply.body {
        Body::Error(body) => assert_eq!(body.message, "Email atau password salah"),
        _ => panic!("an error reply carries a message object"),
    }
    let reply = AppError::Conflict.error_response();
    assert_eq!(reply.status, 500);
    match reply.body {
        Body::Error(body) => assert_eq!(body.message, "Email sudah terdaftar"),
        _ => panic!("an error reply carries a message object"),
    }
}

#[test]
fn duplicate_key_is_known_by_either_code() {
    assert!(failure(Some("23000")).is_duplicate_key());
    assert!(failure(Some("1062")).is_duplicate_key());
}

#[test]
fn other_failures_are_no_duplicate_key() {
    assert!(!failure(None).is_duplicate_key());
    assert!(!failure(Some("")).is_duplicate_key());
    assert!(!failure(Some("23001")).is_duplicate_key());
    assert!(!failure(Some("42S02")).is_duplicate_key());
    assert!(!failure(Some("230000")).is_duplicate_key());
    assert!(!failure(Some(" 1062")).is_duplicate_key());
}
