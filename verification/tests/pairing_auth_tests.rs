use cacao::dashboard::{
    dashboard_family_id, dashboard_profile, dashboard_recent_query, dashboard_wallets_query,
    get_dashboard_data, request_count_query,
};
use cacao::services::store::SqlArg;
use cacao::models::profile::Profile;
use cacao::services::auth_service::{set_pin, verify_pin};
use cacao::services::pairing_service::{
    check_pairing_code, expiry_passed, generate_pairing_code, pairing_expired, pairing_grant,
    pairing_verdict, parse_pairing_family_id, PairingVerdict,
};
use cacao::sync::protocol::SyncStatus;
use cacao::time::UtcDateTime;

fn at(year: i32, month: u32, day: u32, hour: u32, minute: u32, second: u32) -> UtcDateTime {
    UtcDateTime { year, month, day, hour, minute, second, nanosecond: 0 }
}

fn profile() -> Profile {
    Profile {
        id: 1,
        uuid: "p-uuid".to_string(),
        display_name: "Alice".to_string(),
        role: "giver".to_string(),
        locale: "en".to_string(),
        theme: "light".to_string(),
        pin_hash: None,
        sync_version: 1,
        last_synced_at: None,
        is_deleted: 0,
        created_at: "2024-05-01 10:00:00".to_string(),
        updated_at: "2024-05-01 10:00:00".to_string(),
    }
}

#[test]
fn set_and_verify_pin() {
    let hash = set_pin("1234").unwrap();
    assert!(hash.starts_with("$argon2"));
    let stored = Some(hash);
    assert!(verify_pin(&stored, "1234").unwrap());
    assert!(!verify_pin(&stored, "4321").unwrap());
}

#[test]
fn verify_pin_returns_false_when_no_pin() {
    assert!(!verify_pin(&None, "1234").unwrap());
    assert!(!verify_pin(&None, "").unwrap());
}

#[test]
fn pin_case_sensitive_and_unicode() {
    let stored = Some(set_pin("Abc 密碼 🔑").unwrap());
    assert!(verify_pin(&stored, "Abc 密碼 🔑").unwrap());
    assert!(!verify_pin(&stored, "abc 密碼 🔑").unwrap());
    assert!(!verify_pin(&stored, "Abc密碼🔑").unwrap());
}

#[test]
fn set_pin_twice_gives_different_hashes() {
    let a = set_pin("0000").unwrap();
    let b = set_pin("0000").unwrap();
    assert_ne!(a, b);
    assert!(verify_pin(&Some(b), "0000").unwrap());
}

#[test]
fn corrupt_hash_is_an_internal_error() {
    let e = verify_pin(&Some("not a hash".to_string()), "1234").unwrap_err();
    assert_eq!(e.code, "INTERNAL_ERROR");
    assert!(e.message.starts_with("Failed to parse stored hash: "));
}

#[test]
fn generate_pairing_code_is_6_digits() {
    let (issued, g) = generate_pairing_code(42);
    let g = g.unwrap();
    assert_eq!(g.expires_at, pairing_grant(123456, &issued, 42).expires_at);
    assert_eq!(g.code.len(), 6);
    assert!(g.code.chars().all(|c| c.is_ascii_digit()));
    let n: u32 = g.code.parse().unwrap();
    assert!((100000..999999).contains(&n));
    assert_eq!(g.family_id, "42");
    assert_eq!(expiry_passed(&Some(g.expires_at.clone()), &issued).unwrap(), false);
}

#[test]
fn pairing_grant_expires_in_five_minutes() {
    let g = pairing_grant(123456, &at(2024, 5, 1, 23, 58, 0), -3);
    assert_eq!(g.code, "123456");
    assert_eq!(g.family_id, "-3");
    assert_eq!(g.expires_at, "2024-05-02T00:03:00+00:00");
}

#[test]
fn validate_wrong_code_returns_error() {
    let e = check_pairing_code(&Some("123456".to_string()), "654321").unwrap_err();
    assert_eq!(e.code, "PAIRING_CODE_INVALID");
    assert_eq!(e.message, "Invalid pairing code");
    assert!(check_pairing_code(&Some("123456".to_string()), "123456").is_ok());
}

#[test]
fn validate_without_generating_returns_error() {
    assert_eq!(check_pairing_code(&None, "123456").unwrap_err().code, "PAIRING_CODE_INVALID");
}

#[test]
fn validate_empty_code_fails() {
    assert!(check_pairing_code(&Some("123456".to_string()), "").is_err());
}

#[test]
fn expiry_is_checked_against_now() {
    let now = at(2024, 5, 1, 12, 0, 0);
    assert_eq!(expiry_passed(&Some("2024-05-01T12:05:00+00:00".to_string()), &now).unwrap(), false);
    assert_eq!(expiry_passed(&Some("2024-05-01T11:59:59+00:00".to_string()), &now).unwrap(), true);
    assert_eq!(expiry_passed(&Some("2024-05-01T12:00:00+00:00".to_string()), &now).unwrap(), false);
    // An offset is taken into account.
    assert_eq!(expiry_passed(&Some("2024-05-01T13:30:00+02:00".to_string()), &now).unwrap(), true);
    let e = expiry_passed(&None, &now).unwrap_err();
    assert_eq!(e.code, "PAIRING_CODE_EXPIRED");
    assert_eq!(e.message, "Pairing code has expired");
    let e = expiry_passed(&Some("2024-05-01 12:05:00".to_string()), &now).unwrap_err();
    assert_eq!(e.code, "INTERNAL_ERROR");
    assert_eq!(e.message, "Invalid expiry format");
    assert_eq!(pairing_expired().code, "PAIRING_CODE_EXPIRED");
}

#[test]
fn stored_family_id_parses() {
    assert_eq!(parse_pairing_family_id("17").unwrap(), 17);
    let e = parse_pairing_family_id("x17").unwrap_err();
    assert_eq!(e.code, "INTERNAL_ERROR");
    assert_eq!(e.message, "Invalid family_id");
}

#[test]
fn dashboard_needs_a_profile() {
    let e = dashboard_profile(None).unwrap_err();
    assert_eq!(e.code, "NOT_SETUP");
    assert_eq!(e.message, "Device is not set up");
    assert_eq!(dashboard_profile(Some(profile())).unwrap().display_name, "Alice");
    assert_eq!(dashboard_family_id(&None), 0);
}

#[test]
fn dashboard_counts_pending_twice() {
    let d = get_dashboard_data(Some(profile()), None, Vec::new(), Vec::new(), 3, 4, 5, 6).unwrap();
    assert_eq!(d.request_summary.pending, 3);
    assert_eq!(d.request_summary.approved, 4);
    assert_eq!(d.request_summary.rejected, 5);
    assert_eq!(d.pending_requests_count, 3);
    assert_eq!(d.unread_notification_count, 6);
    assert!(d.family.is_none());
    assert_eq!(d.profile.display_name, "Alice");
}

#[test]
fn dashboard_without_profile_is_not_set_up() {
    let e = get_dashboard_data(None, None, Vec::new(), Vec::new(), 0, 0, 0, 0).unwrap_err();
    assert_eq!(e.code, "NOT_SETUP");
    assert_eq!(e.message, "Device is not set up");
}

#[test]
fn dashboard_queries_read_the_family() {
    let q = dashboard_wallets_query(9);
    assert_eq!(q.sql, "SELECT * FROM wallets WHERE family_id = ? AND is_deleted = 0 AND status = 'active' ORDER BY created_at ASC");
    assert_eq!(q.args.len(), 1);
    assert!(matches!(q.args[0], SqlArg::Int(9)));
    let q = dashboard_recent_query(9);
    assert!(q.sql.ends_with("ORDER BY occurred_at DESC LIMIT 5"));
    assert!(matches!(q.args[0], SqlArg::Int(9)));
    let q = request_count_query(9, "pending");
    assert_eq!(q.sql, "SELECT COUNT(*) FROM requests WHERE family_id = ? AND status = ? AND is_deleted = 0");
    assert_eq!(q.args.len(), 2);
    assert!(matches!(&q.args[1], SqlArg::Text(t) if t == "pending"));
}

#[test]
fn sync_status_starts_disconnected() {
    let s = SyncStatus::default();
    assert_eq!(s.state, "disconnected");
    assert!(s.last_sync_at.is_none() && s.peer_device_name.is_none() && s.error_message.is_none());
}

#[test]
fn code_expires_five_minutes_after_it_is_issued() {
    let issued = at(2024, 12, 31, 23, 57, 30);
    let g = pairing_grant(555555, &issued, 1);
    let stored = Some(g.expires_at.clone());
    assert_eq!(expiry_passed(&stored, &at(2024, 12, 31, 23, 59, 59)).unwrap(), false);
    assert_eq!(expiry_passed(&stored, &at(2025, 1, 1, 0, 2, 30)).unwrap(), false);
    assert_eq!(expiry_passed(&stored, &at(2025, 1, 1, 0, 2, 31)).unwrap(), true);
    let mut fraction = issued;
    fraction.nanosecond = 250_000_000;
    let g = pairing_grant(555555, &fraction, 1);
    assert_eq!(g.expires_at, "2025-01-01T00:02:30.250+00:00");
    let stored = Some(g.expires_at);
    assert_eq!(expiry_passed(&stored, &at(2025, 1, 1, 0, 2, 30)).unwrap(), false);
}

#[test]
fn code_is_consumed_after_validation() {
    let issued = at(2024, 6, 1, 10, 0, 0);
    let g = pairing_grant(123456, &issued, 7);
    let stored = Some(g.code.clone());
    let expires = Some(g.expires_at.clone());
    let now = at(2024, 6, 1, 10, 4, 59);
    assert!(matches!(pairing_verdict(&stored, &expires, "123456", &now), PairingVerdict::Accepted));
    assert_eq!(parse_pairing_family_id(&g.family_id).unwrap(), 7);
    match pairing_verdict(&None, &None, "123456", &now) {
        PairingVerdict::Refused(e) => assert_eq!(e.code, "PAIRING_CODE_INVALID"),
        other => panic!("unexpected verdict {:?}", other),
    }
    match pairing_verdict(&stored, &expires, "654321", &now) {
        PairingVerdict::Refused(e) => assert_eq!(e.message, "Invalid pairing code"),
        other => panic!("unexpected verdict {:?}", other),
    }
}

#[test]
fn expired_code_is_forgotten() {
    let issued = at(2024, 6, 1, 10, 0, 0);
    let g = pairing_grant(123456, &issued, 7);
    let later = at(2024, 6, 1, 10, 5, 1);
    match pairing_verdict(&Some(g.code.clone()), &Some(g.expires_at.clone()), "123456", &later) {
        PairingVerdict::Expired(e) => assert_eq!(e.code, "PAIRING_CODE_EXPIRED"),
        other => panic!("unexpected verdict {:?}", other),
    }
    match pairing_verdict(&Some(g.code.clone()), &None, "123456", &later) {
        PairingVerdict::Refused(e) => assert_eq!(e.code, "PAIRING_CODE_EXPIRED"),
        other => panic!("unexpected verdict {:?}", other),
    }
    match pairing_verdict(&Some(g.code.clone()), &Some("soon".to_string()), "123456", &later) {
        PairingVerdict::Refused(e) => assert_eq!(e.message, "Invalid expiry format"),
        other => panic!("unexpected verdict {:?}", other),
    }
}
