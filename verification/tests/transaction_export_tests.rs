use cacao::models::params::{ManualTransactionParams, TransactionFilters};
use cacao::models::transaction::TransactionType;
use cacao::models::wallet::WalletState;
use cacao::services::export_service::{escape_csv_field, export_query, export_transactions_csv, ExportRow};
use cacao::services::store::SqlArg;
use cacao::services::transaction_service::{
    create_manual_transaction, get_monthly_summary, list_transactions, month_bounds, month_count_query,
    month_total_query,
    validate_manual_transaction,
};

fn manual(kind: &str, amount_cents: i64) -> ManualTransactionParams {
    ManualTransactionParams {
        family_id: 3,
        wallet_id: 5,
        transaction_type: kind.to_string(),
        amount_cents,
        category: Some("food".to_string()),
        notes: Some("Lunch".to_string()),
    }
}

fn no_filters() -> TransactionFilters {
    TransactionFilters {
        date_from: None,
        date_to: None,
        wallet_id: None,
        transaction_type: None,
        source_type: None,
        limit: None,
        offset: None,
    }
}

fn row(wallet: &str, kind: &str, amount: &str, category: Option<&str>, notes: Option<&str>) -> ExportRow {
    ExportRow {
        occurred_at: "2024-05-01 10:00:00".to_string(),
        wallet_name: wallet.to_string(),
        type_: kind.to_string(),
        amount: amount.to_string(),
        source_type: "manual".to_string(),
        category: category.map(|c| c.to_string()),
        notes: notes.map(|n| n.to_string()),
    }
}

fn wallet(balance_cents: i64) -> Option<WalletState> {
    Some(WalletState { balance_cents, warning_threshold_cents: 0, sync_version: 7 })
}

#[test]
fn create_manual_credit_transaction() {
    let e = create_manual_transaction(&manual("credit", 2500), wallet(1000)).unwrap();
    assert_eq!(e.new_balance, 3500);
    assert_eq!(e.wallet_sync_version, 8);
    assert_eq!(e.transaction.type_, "credit");
    assert_eq!(e.transaction.source_type, "manual");
    assert_eq!(e.transaction.source_id, None);
    assert_eq!(e.transaction.category.as_deref(), Some("food"));
    assert_eq!(e.transaction.notes.as_deref(), Some("Lunch"));
}

#[test]
fn create_manual_debit_transaction() {
    assert_eq!(create_manual_transaction(&manual("debit", 400), wallet(1000)).unwrap().new_balance, 600);
}

#[test]
fn debit_exact_balance_leaves_zero() {
    assert_eq!(create_manual_transaction(&manual("debit", 1000), wallet(1000)).unwrap().new_balance, 0);
}

#[test]
fn debit_exceeding_by_one_cent_fails() {
    let e = create_manual_transaction(&manual("debit", 1001), wallet(1000)).unwrap_err();
    assert_eq!(e.code, "VALIDATION_ERROR");
    assert_eq!(e.message, "Insufficient balance");
}

#[test]
fn rejects_zero_amount() {
    let e = create_manual_transaction(&manual("credit", 0), wallet(1000)).unwrap_err();
    assert_eq!(e.message, "Amount must be greater than 0");
}

#[test]
fn rejects_invalid_transaction_type() {
    let e = create_manual_transaction(&manual("refund", 10), wallet(1000)).unwrap_err();
    assert_eq!(e.code, "VALIDATION_ERROR");
    assert_eq!(e.message, "Transaction type must be 'credit' or 'debit'");
    assert_eq!(validate_manual_transaction(&manual("debit", 1)).unwrap(), TransactionType::Debit);
}

#[test]
fn debit_nonexistent_wallet_fails() {
    let e = create_manual_transaction(&manual("debit", 10), None).unwrap_err();
    assert_eq!(e.code, "WALLET_NOT_FOUND");
}

#[test]
fn sequential_debits_track_balance_correctly() {
    let mut balance = 1000;
    for _ in 0..4 {
        balance = create_manual_transaction(&manual("debit", 250), wallet(balance)).unwrap().new_balance;
    }
    assert_eq!(balance, 0);
    assert!(create_manual_transaction(&manual("debit", 1), wallet(balance)).is_err());
}

#[test]
fn monthly_summary_rejects_invalid_month() {
    let e = get_monthly_summary(2024, 0, None, None, 0).unwrap_err();
    assert_eq!(e.code, "VALIDATION_ERROR");
    assert_eq!(e.message, "Month must be between 1 and 12");
    let e = get_monthly_summary(2024, 13, None, None, 0).unwrap_err();
    assert_eq!(e.code, "VALIDATION_ERROR");
    assert_eq!(get_monthly_summary(2024, 12, None, None, 0).unwrap().transaction_count, 0);
    let e = month_bounds(2024, 0).unwrap_err();
    assert_eq!(e.message, "Month must be between 1 and 12");
    assert!(month_bounds(2024, 13).is_err());
}

#[test]
fn month_bounds_cover_the_month() {
    assert_eq!(
        month_bounds(2024, 2).unwrap(),
        ("2024-02-01 00:00:00".to_string(), "2024-03-01 00:00:00".to_string())
    );
    assert_eq!(
        month_bounds(2024, 9).unwrap(),
        ("2024-09-01 00:00:00".to_string(), "2024-10-01 00:00:00".to_string())
    );
}

#[test]
fn december_boundary() {
    assert_eq!(
        month_bounds(2024, 12).unwrap(),
        ("2024-12-01 00:00:00".to_string(), "2025-01-01 00:00:00".to_string())
    );
    assert_eq!(month_bounds(999, 12).unwrap().1, "1000-01-01 00:00:00");
}

#[test]
fn monthly_summary_with_mixed_transactions() {
    let s = get_monthly_summary(2024, 6, Some(15000), Some(4000), 5).unwrap();
    assert_eq!(s.total_credit_cents, 15000);
    assert_eq!(s.total_debit_cents, 4000);
    assert_eq!(s.net_change_cents, 11000);
    assert_eq!(s.transaction_count, 5);
}

#[test]
fn empty_month_returns_zeros() {
    let s = get_monthly_summary(2024, 1, None, None, 0).unwrap();
    assert_eq!((s.total_credit_cents, s.total_debit_cents, s.net_change_cents, s.transaction_count), (0, 0, 0, 0));
}

#[test]
fn list_transactions_default_page() {
    let q = list_transactions(3, &no_filters());
    assert_eq!(
        q.sql,
        "SELECT * FROM transactions WHERE family_id = ? AND is_deleted = 0 ORDER BY occurred_at DESC LIMIT 50 OFFSET 0"
    );
    assert_eq!(q.args.len(), 1);
}

#[test]
fn list_transactions_all_five_filters_combined() {
    let f = TransactionFilters {
        date_from: Some("2024-01-01".to_string()),
        date_to: Some("2024-12-31".to_string()),
        wallet_id: Some(5),
        transaction_type: Some("debit".to_string()),
        source_type: Some("request".to_string()),
        limit: Some(10),
        offset: Some(20),
    };
    let q = list_transactions(3, &f);
    assert_eq!(
        q.sql,
        "SELECT * FROM transactions WHERE family_id = ? AND is_deleted = 0 AND occurred_at >= ? AND occurred_at <= ? AND wallet_id = ? AND type = ? AND source_type = ? ORDER BY occurred_at DESC LIMIT 10 OFFSET 20"
    );
    assert_eq!(q.args.len(), 6);
    assert!(matches!(q.args[0], SqlArg::Int(3)));
    assert!(matches!(&q.args[1], SqlArg::Text(t) if t == "2024-01-01"));
    assert!(matches!(q.args[3], SqlArg::Int(5)));
    assert!(matches!(&q.args[5], SqlArg::Text(t) if t == "request"));
}

#[test]
fn list_transactions_filter_by_type() {
    let mut f = no_filters();
    f.transaction_type = Some("credit".to_string());
    f.limit = Some(-1);
    let q = list_transactions(3, &f);
    assert!(q.sql.contains(" AND type = ? "));
    assert!(q.sql.ends_with("LIMIT -1 OFFSET 0"));
    assert_eq!(q.args.len(), 2);
}

#[test]
fn csv_escapes_commas_in_wallet_name() {
    assert_eq!(escape_csv_field("Savings, Main"), "\"Savings, Main\"");
}

#[test]
fn csv_escapes_quotes_in_notes() {
    assert_eq!(escape_csv_field("He said \"hi\""), "\"He said \"\"hi\"\"\"");
}

#[test]
fn csv_escapes_newlines_in_notes() {
    assert_eq!(escape_csv_field("line1\nline2"), "\"line1\nline2\"");
}

#[test]
fn csv_leaves_plain_fields() {
    assert_eq!(escape_csv_field("plain text"), "plain text");
    assert_eq!(escape_csv_field(""), "");
    assert_eq!(escape_csv_field("tab\there;semi\r"), "tab\there;semi\r");
}

#[test]
fn export_empty_csv_has_header() {
    let csv = export_transactions_csv(&Vec::new());
    assert_eq!(csv, "Date,Wallet,Type,Amount,Source,Category,Notes\n");
    assert_eq!(csv.lines().count(), 1);
}

#[test]
fn export_csv_contains_transaction_data() {
    let rows = vec![
        row("Test Wallet", "credit", "100.00", None, None),
        row("Main, Savings", "debit", "50.00", Some("food"), Some("Lunch \"big\"")),
    ];
    let csv = export_transactions_csv(&rows);
    let lines: Vec<&str> = csv.lines().collect();
    assert_eq!(lines.len(), 3);
    assert_eq!(lines[1], "2024-05-01 10:00:00,Test Wallet,credit,100.00,manual,,");
    assert_eq!(
        lines[2],
        "2024-05-01 10:00:00,\"Main, Savings\",debit,50.00,manual,food,\"Lunch \"\"big\"\"\""
    );
}

#[test]
fn export_with_date_filters() {
    let q = export_query(3, &Some("2024-01-01".to_string()), &None, Some(5));
    assert!(q.sql.ends_with(" AND t.occurred_at >= ? AND t.wallet_id = ? ORDER BY t.occurred_at DESC"));
    assert_eq!(q.args.len(), 3);
    let q = export_query(3, &None, &None, None);
    assert!(q.sql.ends_with("WHERE t.family_id = ? AND t.is_deleted = 0 ORDER BY t.occurred_at DESC"));
    assert_eq!(q.args.len(), 1);
}

fn read_field(s: &str) -> String {
    if s.len() >= 2 && s.starts_with('"') && s.ends_with('"') {
        s[1..s.len() - 1].replace("\"\"", "\"")
    } else {
        s.to_string()
    }
}

#[test]
fn escaped_fields_read_back() {
    for f in ["", "a", "\"", "\"\"", "a,b", "say \"hi\"", "x\ny", "\"quoted\"", "tail\"", ",", "中文,\"引號\""] {
        assert_eq!(read_field(&escape_csv_field(f)), f);
    }
}

fn read_line(line: &str) -> Vec<String> {
    let cs: Vec<char> = line.chars().collect();
    let mut fields = Vec::new();
    let mut i = 0;
    loop {
        let mut f = String::new();
        if i < cs.len() && cs[i] == '"' {
            i += 1;
            while i < cs.len() {
                if cs[i] == '"' {
                    if i + 1 < cs.len() && cs[i + 1] == '"' {
                        f.push('"');
                        i += 2;
                        continue;
                    }
                    i += 1;
                    break;
                }
                f.push(cs[i]);
                i += 1;
            }
        } else {
            while i < cs.len() && cs[i] != ',' {
                f.push(cs[i]);
                i += 1;
            }
        }
        fields.push(f);
        if i < cs.len() && cs[i] == ',' {
            i += 1;
        } else {
            return fields;
        }
    }
}

#[test]
fn export_lines_read_back_field_by_field() {
    let r = row("Kids, \"Main\"\nwallet", "debit", "12.50", Some(",,"), Some("\"\""));
    let csv = export_transactions_csv(&vec![r]);
    let line = &csv["Date,Wallet,Type,Amount,Source,Category,Notes\n".len()..csv.len() - 1];
    assert_eq!(
        read_line(line),
        vec!["2024-05-01 10:00:00", "Kids, \"Main\"\nwallet", "debit", "12.50", "manual", ",,", "\"\""]
    );
}

#[test]
fn monthly_summary_statements() {
    let q = month_total_query(3, "credit", "2024-02-01 00:00:00", "2024-03-01 00:00:00");
    assert_eq!(
        q.sql,
        "SELECT COALESCE(SUM(amount_cents), 0) FROM transactions WHERE family_id = ? AND type = ? AND is_deleted = 0 AND occurred_at >= ? AND occurred_at < ?"
    );
    assert_eq!(q.args.len(), 4);
    assert!(matches!(q.args[0], SqlArg::Int(3)));
    assert!(matches!(&q.args[1], SqlArg::Text(t) if t == "credit"));
    assert!(matches!(&q.args[3], SqlArg::Text(t) if t == "2024-03-01 00:00:00"));
    let q = month_count_query(3, "2024-02-01 00:00:00", "2024-03-01 00:00:00");
    assert_eq!(
        q.sql,
        "SELECT COUNT(*) FROM transactions WHERE family_id = ? AND is_deleted = 0 AND occurred_at >= ? AND occurred_at < ?"
    );
    assert!(matches!(&q.args[1], SqlArg::Text(t) if t == "2024-02-01 00:00:00"));
}

#[test]
fn month_windows_count_each_time_once() {
    let times = [
        "2024-01-01 00:00:00",
        "2024-01-31 23:59:59",
        "2024-02-29 12:00:00",
        "2024-06-30 23:59:60",
        "2024-12-01 00:00:00",
        "2024-12-31 23:59:59",
    ];
    let mut total = 0;
    for m in 1..=12u32 {
        let (start, end) = month_bounds(2024, m).unwrap();
        total += times.iter().filter(|t| **t >= start.as_str() && **t < end.as_str()).count();
    }
    assert_eq!(total, times.len());
}
