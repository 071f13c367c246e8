use cacao::error::AppError;
use cacao::services::notification_service::mark_read;
use cacao::services::store::{page, require_affected, require_found};

#[test]
fn not_found_uppercases_resource_name() {
    let e = AppError::not_found("wallet");
    assert_eq!(e.code, "WALLET_NOT_FOUND");
    assert_eq!(e.message, "wallet not found");
}

#[test]
fn not_found_with_multi_word() {
    let e = AppError::not_found("audit_log");
    assert_eq!(e.code, "AUDIT_LOG_NOT_FOUND");
}

#[test]
fn validation_has_correct_code() {
    let e = AppError::validation("bad input");
    assert_eq!(e.code, "VALIDATION_ERROR");
    assert_eq!(e.message, "bad input");
}

#[test]
fn internal_has_correct_code() {
    let e = AppError::internal("something broke");
    assert_eq!(e.code, "INTERNAL_ERROR");
}

#[test]
fn forbidden_has_correct_code() {
    let e = AppError::forbidden();
    assert_eq!(e.code, "FORBIDDEN");
    assert_eq!(e.message, "Permission denied");
}

#[test]
fn display_format_is_correct() {
    let e = AppError::new("TEST_CODE", "test message");
    assert_eq!(e.to_display_string(), "[TEST_CODE] test message");
}

#[test]
fn not_found_various_resources() {
    let resources = ["wallet", "request", "allowance", "notification", "family"];
    for r in resources {
        let err = AppError::not_found(r);
        assert!(
            err.code.ends_with("_NOT_FOUND"),
            "Error code for '{}' should end with _NOT_FOUND but got '{}'",
            r,
            err.code
        );
    }
}

#[test]
fn not_found_uppercases_beyond_ascii() {
    let e = AppError::not_found("straße");
    assert_eq!(e.code, "STRASSE_NOT_FOUND");
    assert_eq!(e.message, "straße not found");
}

#[test]
fn new_keeps_code_and_message() {
    let e = AppError::new("WALLET_ARCHIVED", "Wallet is already archived");
    assert_eq!(e.code, "WALLET_ARCHIVED");
    assert_eq!(e.message, "Wallet is already archived");
}

#[test]
fn require_found_passes_the_record_through() {
    let r = require_found(Some(7i64), "wallet");
    assert_eq!(r.unwrap(), 7);
    let e = require_found::<i64>(None, "wallet").unwrap_err();
    assert_eq!(e.code, "WALLET_NOT_FOUND");
    assert_eq!(e.message, "wallet not found");
}

#[test]
fn require_affected_needs_a_row() {
    assert!(require_affected(1, "allowance").is_ok());
    let e = require_affected(0, "allowance").unwrap_err();
    assert_eq!(e.code, "ALLOWANCE_NOT_FOUND");
}

#[test]
fn mark_read_nonexistent_returns_error() {
    let e = mark_read(0).unwrap_err();
    assert_eq!(e.code, "NOTIFICATION_NOT_FOUND");
    assert!(mark_read(1).is_ok());
}

#[test]
fn page_defaults_to_fifty_from_zero() {
    assert_eq!(page(None, None), (50, 0));
    assert_eq!(page(Some(5), Some(10)), (5, 10));
    assert_eq!(page(Some(0), None), (0, 0));
}
