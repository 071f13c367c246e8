use cacao::models::family::Family;
use cacao::models::params::CreateWalletParams;
use cacao::models::profile::Profile;
use cacao::models::wallet::Wallet;
use cacao::services::allowance_service::status_update_query;
use cacao::services::family_service::{create_family, joined_family, member_removal_query};
use cacao::services::store::SqlArg;
use cacao::services::setup_service::{require_profile, reset_tables, setup_device, ProfileUse};
use cacao::services::wallet_service::{
    archive_wallet, check_wallet_name, create_wallet, opening_credit, update_wallet,
    wallet_insert_error, wallet_update_query,
};

fn wallet_params(name: &str, initial: Option<i64>) -> CreateWalletParams {
    CreateWalletParams {
        family_id: 3,
        name: name.to_string(),
        wallet_type: "cash".to_string(),
        initial_balance_cents: initial,
    }
}

fn wallet(status: &str) -> Wallet {
    Wallet {
        id: 5,
        uuid: "w-uuid".to_string(),
        family_id: 3,
        name: "Piggy Bank".to_string(),
        type_: "cash".to_string(),
        balance_cents: 0,
        currency: "TWD".to_string(),
        warning_threshold_cents: 0,
        status: status.to_string(),
        sync_version: 1,
        last_synced_at: None,
        is_deleted: 0,
        created_at: "2024-05-01 10:00:00".to_string(),
        updated_at: "2024-05-01 10:00:00".to_string(),
    }
}

fn profile() -> Profile {
    Profile {
        id: 1,
        uuid: "p-uuid".to_string(),
        display_name: "Alice".to_string(),
        role: "giver".to_string(),
        locale: "en".to_string(),
        theme: "light".to_string(),
        pin_hash: None,
        sync_version: 1,
        last_synced_at: None,
        is_deleted: 0,
        created_at: "2024-05-01 10:00:00".to_string(),
        updated_at: "2024-05-01 10:00:00".to_string(),
    }
}

#[test]
fn create_wallet_basic() {
    let w = create_wallet(&wallet_params("Piggy Bank", None)).unwrap();
    assert_eq!(w.name, "Piggy Bank");
    assert_eq!(w.wallet_type, "cash");
    assert_eq!(w.family_id, 3);
    assert_eq!(w.initial_balance_cents, None);
    assert_eq!(w.status, "active");
    assert_eq!(w.currency, "TWD");
    assert_eq!(w.warning_threshold_cents, 0);
}

#[test]
fn create_wallet_with_initial_balance() {
    let w = create_wallet(&wallet_params("Savings", Some(50000))).unwrap();
    assert_eq!(w.initial_balance_cents, Some(50000));
    let t = opening_credit(3, 8, 50000);
    assert_eq!(t.type_, "credit");
    assert_eq!(t.source_type, "manual");
    assert_eq!(t.amount_cents, 50000);
    assert_eq!(t.wallet_id, 8);
}

#[test]
fn create_wallet_with_negative_initial_balance_stays_zero() {
    assert_eq!(create_wallet(&wallet_params("Debt", Some(-500))).unwrap().initial_balance_cents, None);
    assert_eq!(create_wallet(&wallet_params("Zero", Some(0))).unwrap().initial_balance_cents, None);
}

#[test]
fn create_wallet_rejects_empty_name() {
    let e = create_wallet(&wallet_params("  ", None)).unwrap_err();
    assert_eq!(e.code, "VALIDATION_ERROR");
    assert_eq!(e.message, "Wallet name must be 1-50 characters");
}

#[test]
fn wallet_name_at_50_char_boundary() {
    let name = "a".repeat(50);
    assert_eq!(create_wallet(&wallet_params(&name, None)).unwrap().name, name);
}

#[test]
fn wallet_name_51_chars_rejected() {
    assert!(create_wallet(&wallet_params(&"a".repeat(51), None)).is_err());
}

#[test]
fn wallet_name_length_counts_characters() {
    let name = "零用錢".repeat(7);
    assert_eq!(create_wallet(&wallet_params(&name, None)).unwrap().name, name);
    assert_eq!(check_wallet_name(&"零".repeat(50)).unwrap(), "零".repeat(50));
    assert!(check_wallet_name(&"零".repeat(51)).is_err());
    assert_eq!(check_wallet_name("  小豬撲滿 🐷 ").unwrap(), "小豬撲滿 🐷");
}

#[test]
fn trimmed_name() {
    assert_eq!(create_wallet(&wallet_params("  Main  ", None)).unwrap().name, "Main");
    // Surrounding spaces do not count toward the limit.
    let padded = format!("   {}   ", "b".repeat(50));
    assert!(create_wallet(&wallet_params(&padded, None)).is_ok());
}

#[test]
fn create_wallet_rejects_duplicate_name() {
    let e = wallet_insert_error("UNIQUE constraint failed: wallets.family_id, wallets.name");
    assert_eq!(e.code, "WALLET_NAME_EXISTS");
    assert_eq!(e.message, "A wallet with this name already exists");
    let e = wallet_insert_error("database is locked");
    assert_eq!(e.code, "INTERNAL_ERROR");
    assert_eq!(e.message, "database is locked");
}

#[test]
fn update_wallet_rejects_empty_name() {
    assert_eq!(update_wallet(" ").unwrap_err().code, "VALIDATION_ERROR");
    assert!(update_wallet(&"x".repeat(51)).is_err());
    assert_eq!(update_wallet(" New name ").unwrap(), "New name");
}

#[test]
fn archive_wallet_rejects_already_archived() {
    let w = wallet("active");
    assert_eq!(archive_wallet(&w).unwrap(), w.sync_version + 1);
    let e = archive_wallet(&wallet("archived")).unwrap_err();
    assert_eq!(e.code, "WALLET_ARCHIVED");
    assert_eq!(e.message, "Wallet is already archived");
}

#[test]
fn setup_device_creates_profile() {
    let p = setup_device(false, "Alice", "giver").unwrap();
    assert_eq!(p.display_name, "Alice");
    assert_eq!(p.role, "giver");
}

#[test]
fn setup_device_trims_name() {
    assert_eq!(setup_device(false, "  Bob  ", "baby").unwrap().display_name, "Bob");
}

#[test]
fn setup_preserves_internal_whitespace() {
    assert_eq!(setup_device(false, " Mary  Ann ", "baby").unwrap().display_name, "Mary  Ann");
}

#[test]
fn setup_device_rejects_empty_name() {
    let e = setup_device(false, "   ", "giver").unwrap_err();
    assert_eq!(e.code, "VALIDATION_ERROR");
    assert_eq!(e.message, "Display name must be 1-50 characters");
}

#[test]
fn setup_device_rejects_invalid_role() {
    let e = setup_device(false, "Alice", "admin").unwrap_err();
    assert_eq!(e.code, "VALIDATION_ERROR");
    assert_eq!(e.message, "Role must be 'giver' or 'baby'");
}

#[test]
fn setup_device_prevents_double_setup() {
    let e = setup_device(true, "Alice", "giver").unwrap_err();
    assert_eq!(e.code, "DEVICE_ALREADY_SETUP");
    assert_eq!(e.message, "Device is already set up");
}

#[test]
fn setup_device_name_at_50_chars() {
    assert!(setup_device(false, &"n".repeat(50), "giver").is_ok());
    assert!(setup_device(false, &"n".repeat(51), "giver").is_err());
}

#[test]
fn create_family_and_auto_adds_member() {
    let f = create_family("p-uuid", "Test Family").unwrap();
    assert_eq!(f.name, "Test Family");
    assert_eq!(f.created_by_device, "p-uuid");
    assert_eq!(f.creator_role, "giver");
}

#[test]
fn create_family_trims_name() {
    assert_eq!(create_family("d", "  The Lins  ").unwrap().name, "The Lins");
}

#[test]
fn create_family_rejects_empty_name() {
    let e = create_family("d", "").unwrap_err();
    assert_eq!(e.code, "VALIDATION_ERROR");
    assert_eq!(e.message, "Family name must be 1-50 characters");
}

#[test]
fn create_family_rejects_too_long_name() {
    assert!(create_family("d", &"f".repeat(51)).is_err());
}

#[test]
fn family_name_with_unicode_works() {
    assert_eq!(create_family("d", "林家 👨‍👩‍👧").unwrap().name, "林家 👨‍👩‍👧");
}

#[test]
fn joined_family_must_exist() {
    assert_eq!(joined_family(None).unwrap_err().code, "FAMILY_NOT_FOUND");
    let f = Family {
        id: 3,
        uuid: "f".to_string(),
        name: "Lin".to_string(),
        currency: "TWD".to_string(),
        timezone: "Asia/Taipei".to_string(),
        created_by_device: "d".to_string(),
        sync_version: 1,
        last_synced_at: None,
        is_deleted: 0,
        created_at: "x".to_string(),
        updated_at: "x".to_string(),
    };
    assert_eq!(joined_family(Some(f)).unwrap().id, 3);
}

#[test]
fn family_commands_need_a_profile() {
    let e = require_profile(None, ProfileUse::CreateFamily).unwrap_err();
    assert_eq!(e.code, "DEVICE_NOT_SETUP");
    assert_eq!(e.message, "Device must be set up before creating a family");
    let e = require_profile(None, ProfileUse::JoinFamily).unwrap_err();
    assert_eq!(e.message, "Device must be set up before joining a family");
    assert_eq!(require_profile(Some(profile()), ProfileUse::JoinFamily).unwrap().uuid, "p-uuid");
}

#[test]
fn reset_device_clears_all_data() {
    assert_eq!(
        reset_tables(),
        vec![
            "audit_logs",
            "notifications",
            "transactions",
            "requests",
            "allowances",
            "wallets",
            "paired_devices",
            "family_members",
            "families",
            "profiles",
            "sync_state",
        ]
    );
}

#[test]
fn plain_updates_bump_the_version() {
    let q = wallet_update_query(8, "Savings", 1200);
    assert!(q.sql.contains("sync_version = sync_version + 1"));
    assert!(q.sql.ends_with("WHERE id = ? AND is_deleted = 0"));
    assert!(matches!(&q.args[0], SqlArg::Text(t) if t == "Savings"));
    assert!(matches!(q.args[1], SqlArg::Int(1200)));
    assert!(matches!(q.args[2], SqlArg::Int(8)));
    let q = status_update_query(21, "paused");
    assert_eq!(
        q.sql,
        "UPDATE allowances SET status = ?, sync_version = sync_version + 1, updated_at = datetime('now') WHERE id = ? AND is_deleted = 0"
    );
    assert!(matches!(&q.args[0], SqlArg::Text(t) if t == "paused"));
    assert!(matches!(q.args[1], SqlArg::Int(21)));
    let q = member_removal_query(4);
    assert!(q.sql.starts_with("UPDATE family_members SET status = 'removed', is_deleted = 1, sync_version = sync_version + 1"));
    assert!(matches!(q.args[0], SqlArg::Int(4)));
}

#[test]
fn reset_statements_empty_every_table() {
    let statements = cacao::services::setup_service::reset_statements();
    let tables = reset_tables();
    assert_eq!(statements.len(), 11);
    for (s, t) in statements.iter().zip(tables.iter()) {
        assert_eq!(*s, format!("DELETE FROM {}", t));
    }
    assert_eq!(statements[0], "DELETE FROM audit_logs");
    assert_eq!(statements[10], "DELETE FROM sync_state");
}
