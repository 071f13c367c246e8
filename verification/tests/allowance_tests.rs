use cacao::models::allowance::Allowance;
use cacao::models::params::{CreateAllowanceParams, UpdateAllowanceParams};
use cacao::services::allowance_service::{
    calculate_next_run, check_frequency, check_interval, create_allowance, disburse,
    execute_allowance, low_balance_warning, next_run_is_defined, plan_allowance, plan_resume, resume_allowance,
    update_allowance,
};
use cacao::models::wallet::WalletState;
use cacao::time::UtcDateTime;

fn at(year: i32, month: u32, day: u32, hour: u32, minute: u32, second: u32) -> UtcDateTime {
    UtcDateTime { year, month, day, hour, minute, second, nanosecond: 0 }
}

fn allowance(frequency: &str, interval_count: i64, status: &str) -> Allowance {
    Allowance {
        id: 21,
        uuid: "alw-uuid".to_string(),
        family_id: 3,
        giver_member_id: 1,
        receiver_member_id: 2,
        wallet_id: 5,
        amount_cents: 500,
        frequency: frequency.to_string(),
        interval_count,
        next_run_at: Some("2024-05-02 09:00:00".to_string()),
        last_run_at: None,
        status: status.to_string(),
        notes: Some("weekly pocket money".to_string()),
        sync_version: 1,
        last_synced_at: None,
        is_deleted: 0,
        created_at: "2024-05-01 09:00:00".to_string(),
        updated_at: "2024-05-01 09:00:00".to_string(),
    }
}

fn wallet(balance_cents: i64, warning_threshold_cents: i64) -> Option<WalletState> {
    Some(WalletState { balance_cents, warning_threshold_cents, sync_version: 4 })
}

fn create_params(amount_cents: i64, frequency: &str, interval_count: Option<i64>) -> CreateAllowanceParams {
    CreateAllowanceParams {
        family_id: 3,
        giver_member_id: 1,
        receiver_member_id: 2,
        wallet_id: 5,
        amount_cents,
        frequency: frequency.to_string(),
        interval_count,
        notes: None,
    }
}

fn next(frequency: &str, interval: i64, from: UtcDateTime) -> Result<UtcDateTime, cacao::error::AppError> {
    assert!(next_run_is_defined(frequency, interval, &from));
    calculate_next_run(frequency, interval, &from)
}

#[test]
fn daily_adds_days() {
    assert_eq!(next("daily", 1, at(2024, 2, 28, 9, 30, 0)).unwrap(), at(2024, 2, 29, 9, 30, 0));
    assert_eq!(next("daily", 3, at(2023, 12, 30, 0, 0, 0)).unwrap(), at(2024, 1, 2, 0, 0, 0));
}

#[test]
fn custom_counts_days_like_daily() {
    assert_eq!(next("custom", 10, at(2024, 1, 25, 8, 0, 0)).unwrap(), at(2024, 2, 4, 8, 0, 0));
}

#[test]
fn weekly_and_biweekly_add_weeks() {
    assert_eq!(next("weekly", 1, at(2024, 5, 1, 12, 0, 0)).unwrap(), at(2024, 5, 8, 12, 0, 0));
    assert_eq!(next("weekly", 2, at(2024, 5, 1, 12, 0, 0)).unwrap(), at(2024, 5, 15, 12, 0, 0));
    assert_eq!(next("biweekly", 1, at(2024, 12, 25, 0, 0, 0)).unwrap(), at(2025, 1, 8, 0, 0, 0));
}

#[test]
fn negative_interval_goes_back() {
    assert_eq!(next("daily", -1, at(2024, 3, 1, 0, 0, 0)).unwrap(), at(2024, 2, 29, 0, 0, 0));
}

#[test]
fn monthly_keeps_the_day() {
    assert_eq!(next("monthly", 1, at(2024, 1, 15, 7, 5, 3)).unwrap(), at(2024, 2, 15, 7, 5, 3));
    assert_eq!(next("monthly", 1, at(2024, 12, 15, 0, 0, 0)).unwrap(), at(2025, 1, 15, 0, 0, 0));
    assert_eq!(next("monthly", 13, at(2024, 7, 31, 0, 0, 0)).unwrap(), at(2025, 8, 31, 0, 0, 0));
    assert_eq!(next("monthly", -2, at(2024, 1, 10, 0, 0, 0)).unwrap(), at(2023, 11, 10, 0, 0, 0));
}

#[test]
fn monthly_clamps_to_the_last_day_of_a_shorter_month() {
    assert_eq!(next("monthly", 1, at(2024, 1, 31, 8, 0, 0)).unwrap(), at(2024, 2, 29, 8, 0, 0));
    assert_eq!(next("monthly", 1, at(2023, 1, 31, 8, 0, 0)).unwrap(), at(2023, 2, 28, 8, 0, 0));
    assert_eq!(next("monthly", 1, at(2024, 3, 31, 0, 0, 0)).unwrap(), at(2024, 4, 30, 0, 0, 0));
    assert_eq!(next("monthly", 11, at(2024, 1, 31, 0, 0, 0)).unwrap(), at(2024, 12, 31, 0, 0, 0));
}

#[test]
fn monthly_from_leap_day_to_a_common_year_clamps() {
    assert_eq!(next("monthly", 12, at(2024, 2, 29, 0, 0, 0)).unwrap(), at(2025, 2, 28, 0, 0, 0));
    assert_eq!(next("monthly", 48, at(2024, 2, 29, 0, 0, 0)).unwrap(), at(2028, 2, 29, 0, 0, 0));
}

#[test]
fn monthly_past_the_last_representable_year_fails() {
    let e = next("monthly", 12, at(262142, 6, 1, 0, 0, 0)).unwrap_err();
    assert_eq!(e.code, "VALIDATION_ERROR");
    assert_eq!(e.message, "Invalid date calculation");
}

#[test]
fn unknown_frequency_is_invalid() {
    let e = next("yearly", 1, at(2024, 1, 1, 0, 0, 0)).unwrap_err();
    assert_eq!(e.code, "VALIDATION_ERROR");
    assert_eq!(e.message, "Invalid frequency");
}

#[test]
fn huge_intervals_are_not_defined() {
    let from = at(2024, 1, 1, 0, 0, 0);
    assert!(!next_run_is_defined("daily", i64::MAX, &from));
    assert!(!next_run_is_defined("weekly", 1_000_000_000_000, &from));
    assert!(next_run_is_defined("weekly", 1000, &from));
    assert!(next_run_is_defined("nonsense", i64::MAX, &from));
}

#[test]
fn next_run_is_later_for_positive_intervals() {
    let from = at(2024, 6, 15, 10, 0, 0);
    for f in ["daily", "weekly", "biweekly", "monthly", "custom"] {
        for i in [1i64, 2, 5, 30] {
            let n = next(f, i, from).unwrap();
            assert!((n.year, n.month, n.day) > (from.year, from.month, from.day));
        }
    }
}

#[test]
fn check_frequency_accepts_the_five() {
    for f in ["daily", "weekly", "biweekly", "monthly", "custom"] {
        assert!(check_frequency(f).is_ok());
    }
    assert_eq!(check_frequency("Daily").unwrap_err().message, "Invalid frequency");
}

#[test]
fn check_interval_needs_positive() {
    assert!(check_interval(1).is_ok());
    assert_eq!(check_interval(0).unwrap_err().message, "Interval count must be greater than 0");
}

#[test]
fn create_allowance_weekly() {
    let now = at(2024, 5, 1, 8, 30, 0);
    let n = plan_allowance(&create_params(500, "weekly", None), &now).unwrap();
    assert_eq!(n.interval_count, 1);
    assert_eq!(n.status, "active");
    assert_eq!(n.frequency, "weekly");
    assert_eq!(n.amount_cents, 500);
    assert_eq!(n.next_run_at, "2024-05-08 08:30:00");
    assert_eq!(n.wallet_id, 5);
    assert_eq!(n.receiver_member_id, 2);
}

#[test]
fn create_allowance_monthly() {
    let now = at(2024, 5, 1, 8, 30, 0);
    let n = plan_allowance(&create_params(500, "monthly", Some(2)), &now).unwrap();
    assert_eq!(n.interval_count, 2);
    assert_eq!(n.next_run_at, "2024-07-01 08:30:00");
}

#[test]
fn create_allowance_rejects_zero_amount() {
    let now = at(2024, 5, 1, 8, 30, 0);
    let e = plan_allowance(&create_params(0, "weekly", None), &now).unwrap_err();
    assert_eq!(e.code, "VALIDATION_ERROR");
    assert_eq!(e.message, "Amount must be greater than 0");
}

#[test]
fn create_allowance_rejects_invalid_frequency() {
    let now = at(2024, 5, 1, 8, 30, 0);
    let e = plan_allowance(&create_params(100, "hourly", None), &now).unwrap_err();
    assert_eq!(e.message, "Invalid frequency");
}

#[test]
fn create_allowance_rejects_zero_interval() {
    let now = at(2024, 5, 1, 8, 30, 0);
    let e = plan_allowance(&create_params(100, "daily", Some(0)), &now).unwrap_err();
    assert_eq!(e.message, "Interval count must be greater than 0");
    let e = plan_allowance(&create_params(100, "daily", Some(-3)), &now).unwrap_err();
    assert_eq!(e.message, "Interval count must be greater than 0");
}

#[test]
fn create_allowance_from_the_clock() {
    let (now, r) = create_allowance(&create_params(100, "daily", None));
    let r = r.unwrap().unwrap();
    assert_eq!(r.status, "active");
    assert_eq!(r.next_run_at, plan_allowance(&create_params(100, "daily", None), &now).unwrap().next_run_at);
    let e = create_allowance(&create_params(-1, "daily", None)).1.unwrap().unwrap_err();
    assert_eq!(e.message, "Amount must be greater than 0");
}

#[test]
fn update_allowance_amount() {
    let mut a = allowance("daily", 1, "active");
    a.amount_cents = 5000;
    let p = UpdateAllowanceParams { amount_cents: Some(8000), frequency: None, interval_count: None, notes: None };
    let ed = update_allowance(&a, &p).unwrap().unwrap();
    assert_eq!(ed.amount_cents, 8000);
    assert_eq!(ed.sync_version, 2);
    assert_eq!(ed.frequency, "daily");
    assert_eq!(ed.interval_count, 1);
    assert_eq!(ed.notes.as_deref(), Some("weekly pocket money"));
}

#[test]
fn update_allowance_frequency_and_interval() {
    let p = UpdateAllowanceParams {
        amount_cents: None,
        frequency: Some("monthly".to_string()),
        interval_count: Some(3),
        notes: Some("quarterly".to_string()),
    };
    let ed = update_allowance(&allowance("weekly", 1, "active"), &p).unwrap().unwrap();
    assert_eq!(ed.frequency, "monthly");
    assert_eq!(ed.interval_count, 3);
    assert_eq!(ed.notes.as_deref(), Some("quarterly"));
    assert_eq!(ed.amount_cents, 500);
}

#[test]
fn update_allowance_no_changes_returns_same() {
    let p = UpdateAllowanceParams { amount_cents: None, frequency: None, interval_count: None, notes: None };
    assert!(update_allowance(&allowance("weekly", 1, "active"), &p).unwrap().is_none());
}

#[test]
fn update_paused_allowance_fails() {
    let p = UpdateAllowanceParams { amount_cents: Some(900), frequency: None, interval_count: None, notes: None };
    let e = update_allowance(&allowance("weekly", 1, "paused"), &p).unwrap_err();
    assert_eq!(e.code, "VALIDATION_ERROR");
    assert_eq!(e.message, "Only active allowances can be updated");
    assert!(update_allowance(&allowance("weekly", 1, "archived"), &p).is_err());
}

#[test]
fn update_allowance_rejects_bad_values() {
    let a = allowance("weekly", 1, "active");
    let p = UpdateAllowanceParams { amount_cents: Some(0), frequency: None, interval_count: None, notes: None };
    assert_eq!(update_allowance(&a, &p).unwrap_err().message, "Amount must be greater than 0");
    let p = UpdateAllowanceParams { amount_cents: None, frequency: Some("often".to_string()), interval_count: None, notes: None };
    assert_eq!(update_allowance(&a, &p).unwrap_err().message, "Invalid frequency");
    let p = UpdateAllowanceParams { amount_cents: None, frequency: None, interval_count: Some(0), notes: None };
    assert_eq!(update_allowance(&a, &p).unwrap_err().message, "Interval count must be greater than 0");
}

#[test]
fn resume_schedules_from_now() {
    let now = at(2024, 5, 1, 8, 30, 0);
    let a = allowance("biweekly", 1, "archived");
    let p = plan_resume(&a, &now).unwrap();
    assert_eq!(p.next_run_at, "2024-05-15 08:30:00");
    assert_eq!(p.status, "active");
    assert_eq!(p.sync_version, 2);
    let bad = allowance("sometimes", 1, "paused");
    assert_eq!(plan_resume(&bad, &now).unwrap_err().message, "Invalid frequency");
    let (now, r) = resume_allowance(&a);
    assert_eq!(r.unwrap().unwrap().next_run_at, plan_resume(&a, &now).unwrap().next_run_at);
    assert_eq!(resume_allowance(&bad).1.unwrap().unwrap_err().message, "Invalid frequency");
}

#[test]
fn execute_allowance_credits_wallet() {
    let now = at(2024, 5, 2, 9, 0, 5);
    let d = disburse(&allowance("weekly", 1, "active"), wallet(1000, 1200), &now).unwrap();
    assert_eq!(d.new_balance, 1500);
    assert_eq!(d.wallet_sync_version, 5);
    assert_eq!(d.allowance_sync_version, 2);
    assert_eq!(d.notification_event, "allowance_disbursed");
    assert_eq!(d.low_balance_warning, None);
    assert_eq!(d.credit.type_, "credit");
    assert_eq!(d.credit.amount_cents, 500);
    assert_eq!(d.credit.source_type, "allowance");
    assert_eq!(d.credit.source_id, Some(21));
    assert_eq!(d.credit.notes.as_deref(), Some("Allowance disbursement: 500"));
    assert_eq!(d.credit.category, None);
    assert_eq!(d.last_run_at, "2024-05-02 09:00:05");
    assert_eq!(d.next_run_at, "2024-05-09 09:00:05");
    assert_eq!(d.audit_details, "Executed allowance 21 - credited 500 cents to wallet 5");
    let payload: serde_json::Value = serde_json::from_str(&d.notification_payload).unwrap();
    assert_eq!(payload["allowance_id"], 21);
    assert_eq!(payload["wallet_id"], 5);
    assert_eq!(payload["amount_cents"], 500);
    assert_eq!(payload["receiver_member_id"], 2);
}

#[test]
fn execute_allowance_twice_doubles_balance() {
    let a = allowance("daily", 1, "active");
    let first = disburse(&a, wallet(0, 0), &at(2024, 5, 2, 9, 0, 0)).unwrap();
    let next = Some(WalletState { balance_cents: first.new_balance, warning_threshold_cents: 0, sync_version: first.wallet_sync_version });
    let second = disburse(&a, next, &at(2024, 5, 3, 9, 0, 0)).unwrap();
    assert_eq!(second.new_balance, 1000);
    assert_eq!(second.wallet_sync_version, 6);
}

#[test]
fn execute_allowance_on_deleted_wallet_fails() {
    let e = disburse(&allowance("weekly", 1, "active"), None, &at(2024, 5, 2, 9, 0, 0)).unwrap_err();
    assert_eq!(e.code, "WALLET_NOT_FOUND");
    let e = execute_allowance(&allowance("weekly", 1, "active"), None).1.unwrap().unwrap_err();
    assert_eq!(e.code, "WALLET_NOT_FOUND");
}

#[test]
fn execute_allowance_with_bad_frequency_fails() {
    let e = disburse(&allowance("yearly", 1, "active"), wallet(0, 0), &at(2024, 5, 2, 9, 0, 0)).unwrap_err();
    assert_eq!(e.message, "Invalid frequency");
}

#[test]
fn execute_allowance_now() {
    let (now, d) = execute_allowance(&allowance("monthly", 1, "active"), wallet(10, 0));
    if let Ok(d) = d.unwrap() {
        let a = allowance("monthly", 1, "active");
        assert_eq!(d.last_run_at, disburse(&a, wallet(10, 0), &now).unwrap().last_run_at);
        assert_eq!(d.new_balance, 510);
        assert_eq!(d.wallet_sync_version, 5);
        assert_eq!(d.low_balance_warning, None);
        assert_eq!(d.last_run_at.len(), 19);
    }
}

#[test]
fn execute_allowance_low_balance_creates_warning() {
    let p = low_balance_warning(5, 300, 500).unwrap();
    let v: serde_json::Value = serde_json::from_str(&p).unwrap();
    assert_eq!(v["wallet_id"], 5);
    assert_eq!(v["balance_cents"], 300);
    assert_eq!(v["threshold_cents"], 500);
    assert!(low_balance_warning(5, 500, 500).is_some());
    assert!(low_balance_warning(5, 501, 500).is_none());
    assert!(low_balance_warning(5, -10, 0).is_none());
}

#[test]
fn disbursement_raises_low_balance_warning() {
    let now = at(2024, 5, 2, 9, 0, 0);
    let a = allowance("weekly", 1, "active");
    let d = disburse(&a, wallet(1500, 2000), &now).unwrap();
    assert_eq!(d.new_balance, 2000);
    let v: serde_json::Value = serde_json::from_str(d.low_balance_warning.as_deref().unwrap()).unwrap();
    assert_eq!(v["wallet_id"], 5);
    assert_eq!(v["balance_cents"], 2000);
    assert_eq!(v["threshold_cents"], 2000);
    let mut small = allowance("weekly", 1, "active");
    small.amount_cents = 100;
    let d = disburse(&small, wallet(500, 2000), &now).unwrap();
    assert_eq!(d.new_balance, 600);
    assert!(d.low_balance_warning.is_some());
    let d = disburse(&small, wallet(500, 0), &now).unwrap();
    assert_eq!(d.low_balance_warning, None);
}

#[test]
fn sql_times_are_zero_padded() {
    let a = allowance("daily", 1, "active");
    let run_at = |t: UtcDateTime| disburse(&a, wallet(0, 0), &t).unwrap();
    assert_eq!(run_at(at(987, 3, 4, 5, 6, 7)).last_run_at, "0987-03-04 05:06:07");
    assert_eq!(run_at(at(987, 3, 4, 5, 6, 7)).next_run_at, "0987-03-05 05:06:07");
    assert_eq!(run_at(at(12345, 12, 31, 23, 59, 59)).last_run_at, "+12345-12-31 23:59:59");
    assert_eq!(run_at(at(12345, 12, 31, 23, 59, 59)).next_run_at, "+12346-01-01 23:59:59");
    assert_eq!(run_at(at(-44, 3, 15, 12, 0, 0)).last_run_at, "-0044-03-15 12:00:00");
    let mut leap = at(2016, 12, 31, 23, 59, 59);
    leap.nanosecond = 1_000_000_000;
    assert_eq!(run_at(leap).last_run_at, "2016-12-31 23:59:60");
}
