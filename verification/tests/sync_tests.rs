use cacao::services::store::SqlArg;
use cacao::sync::apply::{
    affected_wallet_ids, balance_update_query, data_int_field, last_sync_query, ledger_balance, ledger_query,
    plan_apply, record_sync_query, upsert_from_giver, LedgerEntry,
};
use cacao::sync::client::{base_url, handshake_url, pull_url, push_url};
use cacao::sync::coordinator::{
    baby_started, begin_cycle, cycle_finished, giver_started, handshake_failed,
    last_sync_or_epoch, no_peer_found, peer_connected, sync_step, sync_stopped, sync_timestamp,
    SyncAction, SyncCycle, SyncEvent, SyncRole,
};
use cacao::sync::discovery::{service_names, MdnsDiscovery, PeerInfo, SearchEvent, SERVICE_TYPE};
use cacao::sync::merge::{
    change_of_row, changes_query, count_query, decide_append_only, decide_versioned, exists_from_count,
    insert_args, insert_statement, merge_kind, syncable_tables, update_statement, version_query,
    MergeAction, MergeKind, MergeResult,
};
use cacao::sync::protocol::{FieldValue, SyncChange, SyncData, SyncField, SyncHandshakeRequest};
use cacao::sync::server::{
    handshake_accepted, handshake_gate, handshake_refused, pull_outcome, pull_since,
    push_outcome, HandshakeGate,
};

fn field(name: &str, value: FieldValue) -> SyncField {
    SyncField { name: name.to_string(), value }
}

fn change(table: &str, uuid: &str, fields: Vec<SyncField>) -> SyncChange {
    SyncChange {
        table: table.to_string(),
        uuid: uuid.to_string(),
        sync_version: 2,
        data: SyncData::Object(fields),
        is_deleted: false,
    }
}

#[test]
fn syncable_tables_in_order() {
    assert_eq!(
        syncable_tables(),
        vec!["profiles", "families", "family_members", "wallets", "allowances", "requests", "transactions"]
    );
}

#[test]
fn merge_kinds() {
    assert_eq!(merge_kind("transactions"), MergeKind::AppendOnly);
    assert_eq!(merge_kind("wallets"), MergeKind::Versioned);
    assert_eq!(merge_kind("profiles"), MergeKind::Versioned);
    assert_eq!(merge_kind("audit_logs"), MergeKind::Unsyncable);
    assert_eq!(merge_kind("sync_state"), MergeKind::Unsyncable);
}

#[test]
fn transactions_are_append_only() {
    assert_eq!(decide_append_only(false), MergeAction::Insert);
    assert_eq!(decide_append_only(true), MergeAction::Ignore);
}

#[test]
fn giver_wins_ties() {
    assert_eq!(decide_versioned(3, Some(3)), MergeAction::Reject);
    assert_eq!(decide_versioned(2, Some(3)), MergeAction::Reject);
    assert_eq!(decide_versioned(4, Some(3)), MergeAction::Upsert);
    assert_eq!(decide_versioned(1, None), MergeAction::Insert);
}

#[test]
fn merge_result_lists_decisions() {
    let mut m = MergeResult::new();
    m.record("a".to_string(), MergeAction::Insert);
    m.record("b".to_string(), MergeAction::Reject);
    m.record("c".to_string(), MergeAction::Ignore);
    m.record("d".to_string(), MergeAction::Upsert);
    assert_eq!(m.accepted, vec!["a".to_string(), "d".to_string()]);
    assert_eq!(m.rejected, vec!["b".to_string()]);
}

#[test]
fn record_lookups() {
    assert_eq!(count_query("wallets"), "SELECT COUNT(*) as cnt FROM wallets WHERE uuid = ?");
    assert_eq!(version_query("requests"), "SELECT sync_version FROM requests WHERE uuid = ?");
    assert!(exists_from_count(1));
    assert!(!exists_from_count(0));
}

#[test]
fn insert_statement_lists_columns() {
    let fields = vec![
        field("amount_cents", FieldValue::Int(500)),
        field("is_deleted", FieldValue::Bool(true)),
        field("notes", FieldValue::Null),
        field("uuid", FieldValue::Text("t-1".to_string())),
    ];
    assert_eq!(
        insert_statement("transactions", &fields, false),
        "INSERT OR IGNORE INTO transactions (amount_cents, is_deleted, notes, uuid) VALUES (?, ?, ?, ?)"
    );
    assert_eq!(
        insert_statement("wallets", &fields[..1].to_vec(), true),
        "INSERT OR REPLACE INTO wallets (amount_cents) VALUES (?)"
    );
    let args = insert_args(&fields);
    assert!(matches!(args[0], SqlArg::Int(500)));
    assert!(matches!(args[1], SqlArg::Int(1)));
    assert!(matches!(args[2], SqlArg::Null));
    assert!(matches!(&args[3], SqlArg::Text(t) if t == "t-1"));
}

#[test]
fn update_statement_skips_id() {
    let fields = vec![
        field("id", FieldValue::Int(9)),
        field("name", FieldValue::Text("Main".to_string())),
        field("ratio", FieldValue::Number("0.5".to_string())),
    ];
    let (sql, args) = update_statement("wallets", &fields, "w-1").unwrap();
    assert_eq!(sql, "UPDATE wallets SET name = ?, ratio = ? WHERE uuid = ?");
    assert_eq!(args.len(), 3);
    assert!(matches!(&args[1], SqlArg::Real(t) if t == "0.5"));
    assert!(matches!(&args[2], SqlArg::Text(t) if t == "w-1"));
    let only_id = vec![field("id", FieldValue::Int(9))];
    assert!(update_statement("wallets", &only_id, "w-1").is_none());
    assert!(update_statement("wallets", &Vec::new(), "w-1").is_none());
}

#[test]
fn changes_queries() {
    assert_eq!(changes_query("transactions"), ("SELECT * FROM transactions WHERE created_at > ?".to_string(), 1));
    assert_eq!(
        changes_query("wallets"),
        ("SELECT * FROM wallets WHERE updated_at > ? OR created_at > ?".to_string(), 2)
    );
}

#[test]
fn affected_wallets_once_each_in_order() {
    let changes = vec![
        change("transactions", "t1", vec![field("wallet_id", FieldValue::Int(7))]),
        change("wallets", "w1", vec![field("id", FieldValue::Int(8)), field("wallet_id", FieldValue::Null)]),
        change("transactions", "t2", vec![field("wallet_id", FieldValue::Int(7))]),
        change("requests", "r1", vec![field("wallet_id", FieldValue::Int(99))]),
        change("wallets", "w2", vec![field("id", FieldValue::Int(5)), field("wallet_id", FieldValue::Int(8))]),
        change("transactions", "t3", vec![field("wallet_id", FieldValue::Text("7".to_string()))]),
    ];
    assert_eq!(affected_wallet_ids(&changes), vec![7, 8, 5]);
    assert!(affected_wallet_ids(&Vec::new()).is_empty());
}

#[test]
fn data_fields_by_name() {
    let d = SyncData::Object(vec![field("id", FieldValue::Int(3)), field("id", FieldValue::Int(4))]);
    assert_eq!(data_int_field(&d, "id"), Some(3));
    assert_eq!(data_int_field(&d, "wallet_id"), None);
    assert_eq!(data_int_field(&SyncData::Other("[1]".to_string()), "id"), None);
}

#[test]
fn upsert_from_giver_replaces() {
    let c = change("wallets", "w1", vec![field("id", FieldValue::Int(1)), field("name", FieldValue::Text("A".to_string()))]);
    let (sql, args) = upsert_from_giver(&c).unwrap();
    assert_eq!(sql, "INSERT OR REPLACE INTO wallets (id, name) VALUES (?, ?)");
    assert_eq!(args.len(), 2);
    let mut bad = c.clone();
    bad.data = SyncData::Other("null".to_string());
    assert_eq!(upsert_from_giver(&bad).unwrap_err(), "Invalid change data");
}

#[test]
fn handshake_decisions() {
    let req = SyncHandshakeRequest { device_uuid: "d".to_string(), family_uuid: "fam".to_string(), pairing_code: None };
    assert!(matches!(handshake_gate(&req, "other"), HandshakeGate::Refuse));
    match handshake_gate(&req, "fam") {
        HandshakeGate::Proceed(d) => {
            assert_eq!(d.device_uuid, "d");
            assert_eq!(d.display_name, "Baby Device");
            assert_eq!(d.role, "baby");
            assert_eq!(d.family_uuid, "fam");
            assert_eq!(d.is_active, 1);
        }
        other => panic!("unexpected gate {:?}", other),
    }
    let mut with_code = req.clone();
    with_code.pairing_code = Some("123456".to_string());
    assert!(matches!(handshake_gate(&with_code, "fam"), HandshakeGate::CheckCode(c, d) if c == "123456" && d.device_uuid == "d"));
    assert!(matches!(handshake_gate(&with_code, "x"), HandshakeGate::Refuse));
    let r = handshake_refused();
    assert!(!r.success && r.family_name.is_none());
    let a = handshake_accepted(Some("Lin".to_string()));
    assert!(a.success);
    assert_eq!(a.family_name.as_deref(), Some("Lin"));
}

#[test]
fn push_and_pull_answers() {
    let mut m = MergeResult::new();
    m.record("a".to_string(), MergeAction::Insert);
    let (ok, resp) = push_outcome(Ok(m));
    assert!(ok);
    assert_eq!(resp.accepted, vec!["a".to_string()]);
    let (ok, resp) = push_outcome(Err("db".to_string()));
    assert!(!ok && resp.accepted.is_empty() && resp.rejected.is_empty());
    let (ok, resp) = pull_outcome(Err("db".to_string()), "now".to_string());
    assert!(!ok && resp.changes.is_empty());
    assert_eq!(resp.server_timestamp, "now");
    let (ok, resp) = pull_outcome(Ok(vec![change("wallets", "w", Vec::new())]), "t".to_string());
    assert!(ok);
    assert_eq!(resp.changes.len(), 1);
    assert_eq!(pull_since(None), "1970-01-01 00:00:00");
    assert_eq!(pull_since(Some("2024-01-01 00:00:00".to_string())), "2024-01-01 00:00:00");
}

#[test]
fn client_urls() {
    let peer = PeerInfo { ip: "192.168.1.20".to_string(), port: 8765, device_name: "Mom".to_string(), family_uuid: "f".to_string() };
    let base = base_url(&peer);
    assert_eq!(base, "http://192.168.1.20:8765");
    assert_eq!(handshake_url(&base), "http://192.168.1.20:8765/sync/handshake");
    assert_eq!(push_url(&base), "http://192.168.1.20:8765/sync/push");
    assert_eq!(pull_url(&base, None), "http://192.168.1.20:8765/sync/pull");
    assert_eq!(
        pull_url(&base, Some("2024-05-01 10:00:00")),
        "http://192.168.1.20:8765/sync/pull?since=2024-05-01%2010%3A00%3A00"
    );
    assert_eq!(pull_url("b", Some("a-b_c.d~é")), "b/sync/pull?since=a-b_c.d~%C3%A9");
}

#[test]
fn service_names_cut_the_uuid() {
    assert_eq!(SERVICE_TYPE, "_cacao._tcp.local.");
    let (host, instance) = service_names("0123456789abcdef", "Mom's phone");
    assert_eq!(host, "cacao-01234567.local.");
    assert_eq!(instance, "cacao-Mom's phone");
    let (host, _) = service_names("abc", "x");
    assert_eq!(host, "cacao-abc.local.");
}

#[test]
fn discovery_takes_the_family_peer() {
    let ev = SearchEvent::Resolved {
        family_uuid: Some("fam".to_string()),
        device_name: Some("Dad".to_string()),
        address: Some("10.0.0.2".to_string()),
        port: 4000,
    };
    let p = MdnsDiscovery::peer_from_event("fam", &ev).unwrap();
    assert_eq!((p.ip.as_str(), p.port, p.device_name.as_str(), p.family_uuid.as_str()), ("10.0.0.2", 4000, "Dad", "fam"));
    assert!(MdnsDiscovery::peer_from_event("other", &ev).is_none());
    assert!(MdnsDiscovery::peer_from_event("fam", &SearchEvent::Other).is_none());
    let no_addr = SearchEvent::Resolved { family_uuid: Some("fam".to_string()), device_name: None, address: None, port: 1 };
    assert!(MdnsDiscovery::peer_from_event("fam", &no_addr).is_none());
    let anonymous = SearchEvent::Resolved { family_uuid: None, device_name: None, address: Some("a".to_string()), port: 1 };
    let p = MdnsDiscovery::peer_from_event("", &anonymous).unwrap();
    assert_eq!(p.device_name, "");
}

#[test]
fn coordinator_status_moves() {
    assert_eq!(SyncRole::for_profile_role("giver"), SyncRole::Giver);
    assert_eq!(SyncRole::for_profile_role("baby"), SyncRole::Baby);
    assert!(SyncRole::Baby.starts_cycles() && !SyncRole::Giver.starts_cycles());
    assert!(SyncRole::Giver.runs_allowances() && !SyncRole::Baby.runs_allowances());
    assert_eq!(giver_started().state, "connected");
    let mut s = baby_started();
    assert_eq!(s.state, "discovering");
    assert_eq!(no_peer_found(&mut s), "PEER_NOT_FOUND");
    assert_eq!(s.state, "disconnected");
    assert_eq!(s.error_message.as_deref(), Some("No Giver device found on this network"));
    begin_cycle(&mut s);
    assert_eq!(s.state, "discovering");
    assert!(s.error_message.is_none());
    assert_eq!(handshake_failed(&mut s), "HANDSHAKE_FAILED");
    assert_eq!(s.state, "error");
    peer_connected(&mut s, "Dad");
    assert_eq!(s.state, "syncing");
    assert_eq!(s.peer_device_name.as_deref(), Some("Dad"));
    cycle_finished(&mut s, "2024-05-01 10:00:00".to_string());
    assert_eq!(s.state, "connected");
    assert!(s.error_message.is_none());
    assert_eq!(s.last_sync_at.as_deref(), Some("2024-05-01 10:00:00"));
    sync_stopped(&mut s);
    assert_eq!(s.state, "disconnected");
    assert_eq!(s.last_sync_at.as_deref(), Some("2024-05-01 10:00:00"));
    assert_eq!(last_sync_or_epoch(None), "1970-01-01 00:00:00");
    assert_eq!(sync_timestamp().len(), 19);
}

#[test]
fn collected_rows_default_their_metadata() {
    let c = change_of_row("wallets", None, None, None, SyncData::Other("null".to_string()));
    assert_eq!((c.table.as_str(), c.uuid.as_str(), c.sync_version, c.is_deleted), ("wallets", "", 0, false));
    let c = change_of_row("requests", Some("r-1".to_string()), Some(4), Some(1), SyncData::Object(Vec::new()));
    assert_eq!((c.uuid.as_str(), c.sync_version, c.is_deleted), ("r-1", 4, true));
    assert!(!change_of_row("requests", None, None, Some(0), SyncData::Object(Vec::new())).is_deleted);
}

fn peer(name: &str) -> PeerInfo {
    PeerInfo { ip: "10.0.0.2".to_string(), port: 8765, device_name: name.to_string(), family_uuid: "fam".to_string() }
}

#[test]
fn giver_starts_no_cycle() {
    let mut cycle = SyncCycle::new(SyncRole::Giver);
    let mut status = giver_started();
    let before = status.clone();
    assert!(matches!(sync_step(&mut cycle, &mut status, SyncEvent::Start), SyncAction::Done));
    assert_eq!(status.state, before.state);
}

#[test]
fn cycle_stops_without_a_peer() {
    let mut cycle = SyncCycle::new(SyncRole::Baby);
    let mut status = baby_started();
    assert!(matches!(sync_step(&mut cycle, &mut status, SyncEvent::Start), SyncAction::Discover));
    assert_eq!(status.state, "discovering");
    let a = sync_step(&mut cycle, &mut status, SyncEvent::PeersFound(Vec::new()));
    assert!(matches!(a, SyncAction::Fail(ref c) if c == "PEER_NOT_FOUND"));
    assert_eq!(status.state, "disconnected");
    assert_eq!(status.error_message.as_deref(), Some("No Giver device found on this network"));
}

#[test]
fn cycle_stops_when_handshake_refused() {
    let mut cycle = SyncCycle::new(SyncRole::Baby);
    let mut status = baby_started();
    sync_step(&mut cycle, &mut status, SyncEvent::Start);
    let a = sync_step(&mut cycle, &mut status, SyncEvent::PeersFound(vec![peer("Mom"), peer("Dad")]));
    assert!(matches!(a, SyncAction::Handshake(ref p) if p.device_name == "Mom"));
    let a = sync_step(&mut cycle, &mut status, SyncEvent::HandshakeReplied(false));
    assert!(matches!(a, SyncAction::Fail(ref c) if c == "HANDSHAKE_FAILED"));
    assert_eq!(status.state, "error");
    assert_eq!(status.error_message.as_deref(), Some("Handshake failed"));
}

#[test]
fn cycle_pushes_pulls_and_applies() {
    let mut cycle = SyncCycle::new(SyncRole::Baby);
    let mut status = baby_started();
    sync_step(&mut cycle, &mut status, SyncEvent::Start);
    sync_step(&mut cycle, &mut status, SyncEvent::PeersFound(vec![peer("Mom")]));
    assert!(matches!(sync_step(&mut cycle, &mut status, SyncEvent::HandshakeReplied(true)), SyncAction::ReadLastSync));
    assert_eq!(status.state, "syncing");
    assert_eq!(status.peer_device_name.as_deref(), Some("Mom"));
    let a = sync_step(&mut cycle, &mut status, SyncEvent::LastSyncRead(None));
    assert!(matches!(a, SyncAction::CollectSince(ref t) if t == "1970-01-01 00:00:00"));
    let local = vec![change("requests", "r1", vec![field("id", FieldValue::Int(1))])];
    let a = sync_step(&mut cycle, &mut status, SyncEvent::LocalChanges(local));
    assert!(matches!(a, SyncAction::Push(ref c) if c.len() == 1 && c[0].uuid == "r1"));
    let a = sync_step(&mut cycle, &mut status, SyncEvent::Pushed);
    assert!(matches!(a, SyncAction::Pull(ref t) if t == "1970-01-01 00:00:00"));
    let pulled = vec![change("wallets", "w1", vec![field("id", FieldValue::Int(1))])];
    let a = sync_step(&mut cycle, &mut status, SyncEvent::Pulled(pulled));
    assert!(matches!(a, SyncAction::Apply(ref c) if c.len() == 1 && c[0].table == "wallets"));
    assert!(matches!(sync_step(&mut cycle, &mut status, SyncEvent::Applied), SyncAction::Done));
    assert_eq!(status.state, "connected");
    assert_eq!(status.error_message, None);
    assert_eq!(status.last_sync_at.as_ref().map(|s| s.len()), Some(19));
}

#[test]
fn cycle_without_changes_skips_push_and_apply() {
    let mut cycle = SyncCycle::new(SyncRole::Baby);
    let mut status = baby_started();
    sync_step(&mut cycle, &mut status, SyncEvent::Start);
    sync_step(&mut cycle, &mut status, SyncEvent::PeersFound(vec![peer("Mom")]));
    sync_step(&mut cycle, &mut status, SyncEvent::HandshakeReplied(true));
    let a = sync_step(&mut cycle, &mut status, SyncEvent::LastSyncRead(Some("2024-06-01 10:00:00".to_string())));
    assert!(matches!(a, SyncAction::CollectSince(ref t) if t == "2024-06-01 10:00:00"));
    let a = sync_step(&mut cycle, &mut status, SyncEvent::LocalChanges(Vec::new()));
    assert!(matches!(a, SyncAction::Pull(ref t) if t == "2024-06-01 10:00:00"));
    assert!(matches!(sync_step(&mut cycle, &mut status, SyncEvent::Pulled(Vec::new())), SyncAction::Done));
    assert_eq!(status.state, "connected");
}

fn entry(type_: &str, amount_cents: i64) -> LedgerEntry {
    LedgerEntry { type_: type_.to_string(), amount_cents }
}

#[test]
fn ledger_balance_sums_transactions() {
    assert_eq!(ledger_balance(&Vec::new()), Some(0));
    let entries = vec![entry("credit", 1000), entry("debit", 300), entry("credit", 50)];
    assert_eq!(ledger_balance(&entries), Some(750));
    let over = vec![entry("credit", i64::MAX), entry("credit", 1)];
    assert_eq!(ledger_balance(&over), None);
}

#[test]
fn apply_statements_recompute_and_record() {
    let q = ledger_query(4);
    assert_eq!(q.sql, "SELECT type, amount_cents FROM transactions WHERE wallet_id = ? AND is_deleted = 0");
    assert!(matches!(q.args[0], SqlArg::Int(4)));
    let q = balance_update_query(4, 750);
    assert_eq!(q.sql, "UPDATE wallets SET balance_cents = ? WHERE id = ?");
    assert!(matches!(q.args[0], SqlArg::Int(750)));
    assert!(matches!(q.args[1], SqlArg::Int(4)));
    let q = record_sync_query("2024-06-01 10:00:00");
    assert_eq!(q.sql, "INSERT OR REPLACE INTO sync_state (key, value) VALUES ('last_sync_timestamp', ?)");
    assert!(matches!(&q.args[0], SqlArg::Text(t) if t == "2024-06-01 10:00:00"));
    assert_eq!(last_sync_query(), "SELECT value FROM sync_state WHERE key = 'last_sync_timestamp'");
}

#[test]
fn apply_plan_upserts_then_recomputes() {
    let good = vec![
        change("wallets", "w1", vec![field("id", FieldValue::Int(7)), field("name", FieldValue::Text("A".to_string()))]),
        change("transactions", "t1", vec![field("wallet_id", FieldValue::Int(7)), field("amount_cents", FieldValue::Int(5))]),
    ];
    let p = plan_apply(&good);
    assert_eq!(p.writes.len(), 2);
    assert_eq!(p.writes[0].0, "INSERT OR REPLACE INTO wallets (id, name) VALUES (?, ?)");
    assert_eq!(p.writes[1].0, "INSERT OR REPLACE INTO transactions (wallet_id, amount_cents) VALUES (?, ?)");
    assert_eq!(p.failure, None);
    assert_eq!(p.wallets, vec![7]);
    let mut bad = good.clone();
    bad[1].data = SyncData::Other("[]".to_string());
    let p = plan_apply(&bad);
    assert_eq!(p.writes.len(), 1);
    assert_eq!(p.failure.as_deref(), Some("Invalid change data"));
}
