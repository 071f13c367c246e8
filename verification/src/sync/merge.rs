//! The giver's side of a push: which of a baby device's changes it takes. Transactions
//! are append-only; other records are taken only when the baby's version is newer, so the
//! giver wins ties.
use vstd::prelude::*;
use crate::services::store::{SqlArg, SqlArgView, args_view};
use crate::sync::protocol::{FieldValue, SyncChange, SyncData, SyncField};
use crate::text::{append_text, text_eq};

verus! {

/// The names of the tables that take part in a sync.
pub open spec fn is_syncable_table(t: Seq<char>) -> bool {
    t == "profiles"@ || t == "families"@ || t == "family_members"@ || t == "wallets"@ || t
        == "allowances"@ || t == "requests"@ || t == "transactions"@
}

/// The tables that take part in a sync, in the order changes are collected.
pub fn syncable_tables() -> (v: Vec<&'static str>)
    ensures
        v@.len() == 7,
        forall|i: int| 0 <= i < 7 ==> is_syncable_table(#[trigger] v@[i]@),
        v@.map_values(|t: &str| t@) == seq![
            "profiles"@,
            "families"@,
            "family_members"@,
            "wallets"@,
            "allowances"@,
            "requests"@,
            "transactions"@,
        ],
{
    let mut v: Vec<&'static str> = Vec::new();
    v.push("profiles");
    v.push("families");
    v.push("family_members");
    v.push("wallets");
    v.push("allowances");
    v.push("requests");
    v.push("transactions");
    assert(v@.map_values(|t: &str| t@) =~= seq![
        "profiles"@,
        "families"@,
        "family_members"@,
        "wallets"@,
        "allowances"@,
        "requests"@,
        "transactions"@,
    ]);
    v
}

/// How the giver decides on a change to a table.
#[derive(Debug, Clone, Copy, PartialEq, Eq)]
pub enum MergeKind {
    /// The table does not sync: the change is refused.
    Unsyncable,
    /// Transactions: taken when the uuid is new, ignored otherwise.
    AppendOnly,
    /// Other tables: decided by comparing versions.
    Versioned,
}

/// How changes to `table` are decided.
pub open spec fn merge_kind_of(table: Seq<char>) -> MergeKind {
    if !is_syncable_table(table) {
        MergeKind::Unsyncable
    } else if table == "transactions"@ {
        MergeKind::AppendOnly
    } else {
        MergeKind::Versioned
    }
}

/// How changes to `table` are decided.
pub fn merge_kind(table: &str) -> (k: MergeKind)
    ensures
        k == merge_kind_of(table@),
{
    let syncable = text_eq(table, "profiles") || text_eq(table, "families") || text_eq(
        table,
        "family_members",
    ) || text_eq(table, "wallets") || text_eq(table, "allowances") || text_eq(table, "requests")
        || text_eq(table, "transactions");
    if !syncable {
        MergeKind::Unsyncable
    } else if text_eq(table, "transactions") {
        MergeKind::AppendOnly
    } else {
        MergeKind::Versioned
    }
}

/// What the giver does with one change.
#[derive(Debug, Clone, Copy, PartialEq, Eq)]
pub enum MergeAction {
    /// Refuse it (listed as rejected).
    Reject,
    /// Drop it silently (a transaction the giver has already).
    Ignore,
    /// Insert the record (listed as accepted).
    Insert,
    /// Overwrite the giver's record (listed as accepted).
    Upsert,
}

/// What the giver does with a transaction, given whether its uuid is known.
pub open spec fn append_only_action(exists: bool) -> MergeAction {
    if exists {
        MergeAction::Ignore
    } else {
        MergeAction::Insert
    }
}

/// What the giver does with a versioned change, given its own version of the record.
pub open spec fn versioned_action(incoming: i64, local: Option<i64>) -> MergeAction {
    match local {
        Some(v) => if incoming > v {
            MergeAction::Upsert
        } else {
            MergeAction::Reject
        },
        None => MergeAction::Insert,
    }
}

/// Decides on a transaction: insert it unless its uuid is known already.
pub fn decide_append_only(exists: bool) -> (a: MergeAction)
    ensures
        a == append_only_action(exists),
{
    if exists {
        MergeAction::Ignore
    } else {
        MergeAction::Insert
    }
}

/// Decides on a versioned change: overwrite when the incoming version is newer than the
/// giver's, refuse it when not (the giver wins ties), insert it when the giver has no
/// such record.
pub fn decide_versioned(incoming: i64, local: Option<i64>) -> (a: MergeAction)
    ensures
        a == versioned_action(incoming, local),
{
    match local {
        Some(v) => if incoming > v {
            MergeAction::Upsert
        } else {
            MergeAction::Reject
        },
        None => MergeAction::Insert,
    }
}

/// The uuids the giver took and refused so far.
#[derive(Debug)]
pub struct MergeResult {
    pub accepted: Vec<String>,
    pub rejected: Vec<String>,
}

impl MergeResult {
    /// No change decided yet.
    pub fn new() -> (r: MergeResult)
        ensures
            r.accepted@.len() == 0,
            r.rejected@.len() == 0,
    {
        MergeResult { accepted: Vec::new(), rejected: Vec::new() }
    }

    /// Records the decision on the change with the given uuid: inserted and overwritten
    /// changes are accepted, refused ones rejected, ignored ones listed nowhere.
    pub fn record(&mut self, uuid: String, action: MergeAction)
        ensures
            action == MergeAction::Insert || action == MergeAction::Upsert ==> final(self).accepted@
                == old(self).accepted@.push(uuid) && final(self).rejected@ == old(self).rejected@,
            action == MergeAction::Reject ==> final(self).rejected@ == old(self).rejected@.push(
                uuid,
            ) && final(self).accepted@ == old(self).accepted@,
            action == MergeAction::Ignore ==> final(self).accepted@ == old(self).accepted@
                && final(self).rejected@ == old(self).rejected@,
    {
        match action {
            MergeAction::Insert => self.accepted.push(uuid),
            MergeAction::Upsert => self.accepted.push(uuid),
            MergeAction::Reject => self.rejected.push(uuid),
            MergeAction::Ignore => {},
        }
    }
}

/// A change to a versioned table is taken only when strictly newer than the giver's copy:
/// on equal versions the giver's copy stays.
pub proof fn law_giver_wins_ties(incoming: i64, local: i64)
    requires
        incoming <= local,
    ensures
        versioned_action(incoming, Some(local)) == MergeAction::Reject,
{
}

/// A record written one version above the giver's copy (as every write of the library
/// bumps the version by one) replaces that copy, and the giver refuses the older copy from
/// then on.
pub proof fn law_next_version_wins(version: i64)
    requires
        version < i64::MAX,
    ensures
        versioned_action((version + 1) as i64, Some(version)) == MergeAction::Upsert,
        versioned_action(version, Some((version + 1) as i64)) == MergeAction::Reject,
{
}

/// Transactions are never overwritten or refused: a known one is ignored, a new one
/// inserted.
pub proof fn law_transactions_append_only(exists: bool)
    ensures
        append_only_action(exists) != MergeAction::Upsert,
        append_only_action(exists) != MergeAction::Reject,
        append_only_action(exists) == MergeAction::Insert <==> !exists,
{
}

/// Changes to tables outside the sync, and stale versioned changes, are the only ones
/// refused; every other change is accepted or (a known transaction) ignored.
pub proof fn law_refusals(table: Seq<char>, incoming: i64, exists: bool, local: Option<i64>)
    ensures
        merge_kind_of(table) == MergeKind::AppendOnly ==> append_only_action(exists)
            != MergeAction::Reject,
        merge_kind_of(table) == MergeKind::Versioned ==> (versioned_action(incoming, local)
            == MergeAction::Reject <==> (local matches Some(v) && incoming <= v)),
        merge_kind_of(table) == MergeKind::Unsyncable <==> !is_syncable_table(table),
{
}

/// `names` joined with `sep` between them.
pub open spec fn joined(names: Seq<Seq<char>>, sep: Seq<char>) -> Seq<char>
    decreases names.len(),
{
    if names.len() == 0 {
        Seq::empty()
    } else if names.len() == 1 {
        names[0]
    } else {
        joined(names.drop_last(), sep) + sep + names.last()
    }
}

/// The names of the columns, in order.
pub open spec fn field_names(fields: Seq<SyncField>) -> Seq<Seq<char>> {
    Seq::new(fields.len(), |k: int| fields[k].name@)
}

/// `n` placeholders.
pub open spec fn placeholders(n: nat) -> Seq<Seq<char>> {
    Seq::new(n, |i: int| "?"@)
}

/// The texts of a list of strings.
pub open spec fn string_views(v: Seq<String>) -> Seq<Seq<char>> {
    Seq::new(v.len(), |k: int| v[k]@)
}

/// The statement that inserts a record with the given columns: `INSERT OR IGNORE` (keep a
/// record already there) or `INSERT OR REPLACE` (overwrite it).
pub open spec fn insert_text(table: Seq<char>, fields: Seq<SyncField>, replace: bool) -> Seq<char> {
    (if replace {
        "INSERT OR REPLACE INTO "@
    } else {
        "INSERT OR IGNORE INTO "@
    }) + table + " ("@ + joined(field_names(fields), ", "@) + ") VALUES ("@ + joined(
        placeholders(fields.len()),
        ", "@,
    ) + ")"@
}

/// Appends the items joined by `sep`.
fn push_joined(s: &mut String, items: &Vec<String>, sep: &str)
    ensures
        final(s)@ == old(s)@ + joined(string_views(items@), sep@),
{
    let ghost start = s@;
    let ghost views = string_views(items@);
    let mut i: usize = 0;
    while i < items.len()
        invariant
            i <= items.len(),
            views == string_views(items@),
            s@ == start + joined(views.take(i as int), sep@),
        decreases items.len() - i,
    {
        if i > 0 {
            append_text(s, sep);
        }
        append_text(s, items[i].as_str());
        assert(views.take(i + 1).drop_last() =~= views.take(i as int));
        assert(views.take(i + 1).last() == items@[i as int]@);
        i += 1;
    }
    assert(views.take(items.len() as int) =~= views);
}

/// The names of the columns.
fn names_of(fields: &Vec<SyncField>) -> (v: Vec<String>)
    ensures
        string_views(v@) == field_names(fields@),
{
    let mut v: Vec<String> = Vec::new();
    let mut i: usize = 0;
    while i < fields.len()
        invariant
            i <= fields.len(),
            v@.len() == i,
            forall|k: int| 0 <= k < i ==> #[trigger] v@[k]@ == fields@[k].name@,
        decreases fields.len() - i,
    {
        v.push(fields[i].name.clone());
        i += 1;
    }
    assert(string_views(v@) =~= field_names(fields@));
    v
}

/// The statement that inserts a record with the given columns.
pub fn insert_statement(table: &str, fields: &Vec<SyncField>, replace: bool) -> (s: String)
    ensures
        s@ == insert_text(table@, fields@, replace),
{
    let mut s = if replace {
        "INSERT OR REPLACE INTO ".to_owned()
    } else {
        "INSERT OR IGNORE INTO ".to_owned()
    };
    append_text(&mut s, table);
    append_text(&mut s, " (");
    let names = names_of(fields);
    push_joined(&mut s, &names, ", ");
    append_text(&mut s, ") VALUES (");
    let mut marks: Vec<String> = Vec::new();
    let mut i: usize = 0;
    while i < fields.len()
        invariant
            i <= fields.len(),
            marks@.len() == i,
            forall|k: int| 0 <= k < i ==> #[trigger] marks@[k]@ == "?"@,
        decreases fields.len() - i,
    {
        marks.push("?".to_owned());
        i += 1;
    }
    assert(string_views(marks@) =~= placeholders(fields@.len()));
    push_joined(&mut s, &marks, ", ");
    append_text(&mut s, ")");
    s
}

/// The argument a column's value is bound as: a boolean as 0 or 1, a number that is no
/// `i64` as a float, an array or object as its JSON text.
pub open spec fn arg_of(v: FieldValue) -> SqlArgView {
    match v {
        FieldValue::Null => SqlArgView::Null,
        FieldValue::Bool(b) => SqlArgView::Int(if b {
            1
        } else {
            0
        }),
        FieldValue::Int(n) => SqlArgView::Int(n),
        FieldValue::Number(t) => SqlArgView::Real(t@),
        FieldValue::Text(t) => SqlArgView::Text(t@),
        FieldValue::Nested(t) => SqlArgView::Text(t@),
    }
}

/// The argument a column's value is bound as.
pub fn bind_arg(v: &FieldValue) -> (a: SqlArg)
    ensures
        a@ == arg_of(*v),
{
    match v {
        FieldValue::Null => SqlArg::Null,
        FieldValue::Bool(b) => SqlArg::Int(
            if *b {
                1
            } else {
                0
            },
        ),
        FieldValue::Int(n) => SqlArg::Int(*n),
        FieldValue::Number(t) => SqlArg::Real(t.clone()),
        FieldValue::Text(t) => SqlArg::Text(t.clone()),
        FieldValue::Nested(t) => SqlArg::Text(t.clone()),
    }
}

/// The arguments of the columns, in order.
pub open spec fn field_args(fields: Seq<SyncField>) -> Seq<SqlArgView> {
    Seq::new(fields.len(), |k: int| arg_of(fields[k].value))
}

/// The arguments of an insert of the given columns, in order.
pub fn insert_args(fields: &Vec<SyncField>) -> (v: Vec<SqlArg>)
    ensures
        args_view(v@) == field_args(fields@),
{
    let mut v: Vec<SqlArg> = Vec::new();
    let mut i: usize = 0;
    while i < fields.len()
        invariant
            i <= fields.len(),
            v@.len() == i,
            forall|k: int| 0 <= k < i ==> #[trigger] v@[k]@ == arg_of(fields@[k].value),
        decreases fields.len() - i,
    {
        v.push(bind_arg(&fields[i].value));
        i += 1;
    }
    assert(args_view(v@) =~= field_args(fields@));
    v
}

/// The columns an update sets: all but `id`, in order.
pub open spec fn settable(fields: Seq<SyncField>) -> Seq<SyncField>
    decreases fields.len(),
{
    if fields.len() == 0 {
        Seq::empty()
    } else {
        let s = settable(fields.drop_last());
        if fields.last().name@ != "id"@ {
            s.push(fields.last())
        } else {
            s
        }
    }
}

/// The `name = ?` clauses of the columns an update sets.
pub open spec fn set_clauses(fields: Seq<SyncField>) -> Seq<Seq<char>> {
    let cols = settable(fields);
    Seq::new(cols.len(), |k: int| cols[k].name@ + " = ?"@)
}

/// The statement that overwrites the record with the given uuid, setting every column but
/// `id`; `None` when there is no such column.
pub open spec fn update_text(table: Seq<char>, fields: Seq<SyncField>) -> Option<Seq<char>> {
    let cols = settable(fields);
    if cols.len() == 0 {
        None
    } else {
        Some("UPDATE "@ + table + " SET "@ + joined(set_clauses(fields), ", "@) + " WHERE uuid = ?"@)
    }
}

/// The statement that overwrites the record with the given uuid and its arguments (the
/// values of the columns set, then the uuid); `None` when no column but `id` is given.
pub fn update_statement(table: &str, fields: &Vec<SyncField>, uuid: &str) -> (r: Option<(String, Vec<SqlArg>)>)
    ensures
        r is Some <==> update_text(table@, fields@) is Some,
        r matches Some(p) ==> Some(p.0@) == update_text(table@, fields@) && args_view(p.1@)
            == field_args(settable(fields@)) + seq![SqlArgView::Text(uuid@)],
{
    let mut sets: Vec<String> = Vec::new();
    let mut args: Vec<SqlArg> = Vec::new();
    let mut i: usize = 0;
    while i < fields.len()
        invariant
            i <= fields.len(),
            sets@.len() == settable(fields@.take(i as int)).len(),
            args@.len() == sets@.len(),
            forall|k: int| 0 <= k < sets@.len() ==> #[trigger] sets@[k]@ == settable(fields@.take(i as int))[k].name@ + " = ?"@,
            forall|k: int| 0 <= k < args@.len() ==> #[trigger] args@[k]@ == arg_of(settable(fields@.take(i as int))[k].value),
        decreases fields.len() - i,
    {
        let ghost prev = fields@.take(i as int);
        proof {
            assert(fields@.take(i + 1).drop_last() =~= prev);
            assert(fields@.take(i + 1).last() == fields@[i as int]);
        }
        if !text_eq(fields[i].name.as_str(), "id") {
            let mut set = fields[i].name.clone();
            append_text(&mut set, " = ?");
            sets.push(set);
            args.push(bind_arg(&fields[i].value));
        }
        i += 1;
    }
    assert(fields@.take(fields.len() as int) =~= fields@);
    assert(string_views(sets@) =~= set_clauses(fields@));
    assert(args_view(args@) =~= field_args(settable(fields@)));
    if sets.len() == 0 {
        return None;
    }
    let mut s = "UPDATE ".to_owned();
    append_text(&mut s, table);
    append_text(&mut s, " SET ");
    push_joined(&mut s, &sets, ", ");
    append_text(&mut s, " WHERE uuid = ?");
    let ghost before = args@;
    args.push(SqlArg::Text(uuid.to_owned()));
    assert(args_view(args@) =~= args_view(before) + seq![SqlArgView::Text(uuid@)]);
    Some((s, args))
}

/// Whether a column is one an overwrite sets: any but `id`.
pub open spec fn is_set_column(f: SyncField) -> bool {
    f.name@ != "id"@
}

proof fn lemma_settable_keeps_all_but_id(fields: Seq<SyncField>)
    ensures
        settable(fields) == fields.filter(|f: SyncField| is_set_column(f)),
    decreases fields.len(),
{
    reveal(Seq::filter);
    if fields.len() > 0 {
        lemma_settable_keeps_all_but_id(fields.drop_last());
    }
}

proof fn lemma_settable_has_a_column(fields: Seq<SyncField>)
    requires
        settable(fields).len() > 0,
    ensures
        exists|k: int| 0 <= k < fields.len() && is_set_column(#[trigger] fields[k]),
    decreases fields.len(),
{
    if is_set_column(fields.last()) {
        assert(is_set_column(fields[fields.len() - 1]));
    } else {
        lemma_settable_has_a_column(fields.drop_last());
        let k = choose|k: int| 0 <= k < fields.drop_last().len() && is_set_column(#[trigger] fields.drop_last()[k]);
        assert(fields[k] == fields.drop_last()[k]);
    }
}

/// How the giver overwrites a record with a pushed change: the update sets exactly the
/// change's columns other than `id`, in the change's order, each bound to its value, and
/// picks the record by the change's uuid; so every column the change carries besides `id`
/// (its `sync_version` among them) takes the change's value. There is an update exactly
/// when the change carries such a column.
pub proof fn law_update_sets_every_column_but_id(
    table: Seq<char>,
    fields: Seq<SyncField>,
    uuid: Seq<char>,
    r: Option<(String, Vec<SqlArg>)>,
)
    requires
        r is Some <==> update_text(table, fields) is Some,
        r matches Some(p) ==> Some(p.0@) == update_text(table, fields) && args_view(p.1@)
            == field_args(settable(fields)) + seq![SqlArgView::Text(uuid)],
    ensures
        r is Some <==> exists|k: int| 0 <= k < fields.len() && is_set_column(#[trigger] fields[k]),
        r matches Some(p) ==> {
            let kept = fields.filter(|f: SyncField| is_set_column(f));
            &&& p.0@ == "UPDATE "@ + table + " SET "@ + joined(
                Seq::new(kept.len(), |j: int| kept[j].name@ + " = ?"@),
                ", "@,
            ) + " WHERE uuid = ?"@
            &&& args_view(p.1@) == Seq::new(kept.len(), |j: int| arg_of(kept[j].value)).push(
                SqlArgView::Text(uuid),
            )
        },
        forall|k: int|
            0 <= k < fields.len() && is_set_column(#[trigger] fields[k]) ==> fields.filter(
                |f: SyncField| is_set_column(f),
            ).contains(fields[k]),
        forall|k: int|
            0 <= k < fields.len() && #[trigger] fields[k].name@ == "sync_version"@ ==> fields.filter(
                |f: SyncField| is_set_column(f),
            ).contains(fields[k]),
{
    let pred = |f: SyncField| is_set_column(f);
    let kept = fields.filter(pred);
    lemma_settable_keeps_all_but_id(fields);
    reveal_strlit("id");
    reveal_strlit("sync_version");
    assert forall|k: int| 0 <= k < fields.len() && is_set_column(#[trigger] fields[k]) implies kept.contains(
        fields[k],
    ) by {
        fields.lemma_filter_contains(pred, k);
    }
    assert forall|k: int| 0 <= k < fields.len() && #[trigger] fields[k].name@ == "sync_version"@ implies kept.contains(
        fields[k],
    ) by {
        assert("sync_version"@.len() != "id"@.len());
        fields.lemma_filter_contains(pred, k);
    }
    if exists|k: int| 0 <= k < fields.len() && is_set_column(#[trigger] fields[k]) {
        let k = choose|k: int| 0 <= k < fields.len() && is_set_column(#[trigger] fields[k]);
        fields.lemma_filter_contains(pred, k);
        assert(kept.len() > 0);
    }
    if kept.len() > 0 {
        lemma_settable_has_a_column(fields);
    }
    assert(set_clauses(fields) =~= Seq::new(kept.len(), |j: int| kept[j].name@ + " = ?"@));
    if let Some(p) = r {
        assert(field_args(kept) + seq![SqlArgView::Text(uuid)] =~= Seq::new(
            kept.len(),
            |j: int| arg_of(kept[j].value),
        ).push(SqlArgView::Text(uuid)));
    }
}

/// The statement that collects the changes to `table` since a time: transactions by
/// creation time only (they are never updated), other tables by update or creation time.
pub open spec fn changes_query_text(table: Seq<char>) -> Seq<char> {
    if table == "transactions"@ {
        "SELECT * FROM "@ + table + " WHERE created_at > ?"@
    } else {
        "SELECT * FROM "@ + table + " WHERE updated_at > ? OR created_at > ?"@
    }
}

/// The statement that collects the changes to `table` since a time, and how many times the
/// time is bound into it.
pub fn changes_query(table: &str) -> (r: (String, usize))
    ensures
        r.0@ == changes_query_text(table@),
        r.1 == if table@ == "transactions"@ {
            1usize
        } else {
            2usize
        },
{
    let mut s = "SELECT * FROM ".to_owned();
    append_text(&mut s, table);
    if text_eq(table, "transactions") {
        append_text(&mut s, " WHERE created_at > ?");
        (s, 1)
    } else {
        append_text(&mut s, " WHERE updated_at > ? OR created_at > ?");
        (s, 2)
    }
}

/// The statement that counts the records of `table` with a given uuid.
pub open spec fn count_query_text(table: Seq<char>) -> Seq<char> {
    "SELECT COUNT(*) as cnt FROM "@ + table + " WHERE uuid = ?"@
}

/// The statement that counts the records of `table` with a given uuid.
pub fn count_query(table: &str) -> (s: String)
    ensures
        s@ == count_query_text(table@),
{
    let mut s = "SELECT COUNT(*) as cnt FROM ".to_owned();
    append_text(&mut s, table);
    append_text(&mut s, " WHERE uuid = ?");
    s
}

/// Whether a record exists, from the count of records with its uuid.
pub fn exists_from_count(count: i64) -> (r: bool)
    ensures
        r == (count > 0),
{
    count > 0
}

/// The statement that reads the version of the record of `table` with a given uuid.
pub open spec fn version_query_text(table: Seq<char>) -> Seq<char> {
    "SELECT sync_version FROM "@ + table + " WHERE uuid = ?"@
}

/// The statement that reads the version of the record of `table` with a given uuid.
pub fn version_query(table: &str) -> (s: String)
    ensures
        s@ == version_query_text(table@),
{
    let mut s = "SELECT sync_version FROM ".to_owned();
    append_text(&mut s, table);
    append_text(&mut s, " WHERE uuid = ?");
    s
}

/// The change a collected row stands for: its uuid (empty when the row has none), its
/// version (0 when it has none) and whether it is deleted (a nonzero flag; not when it
/// has none).
pub fn change_of_row(
    table: &str,
    uuid: Option<String>,
    sync_version: Option<i64>,
    is_deleted: Option<i64>,
    data: SyncData,
) -> (c: SyncChange)
    ensures
        c.table@ == table@,
        c.uuid@ == match uuid {
            Some(u) => u@,
            None => Seq::<char>::empty(),
        },
        c.sync_version == match sync_version {
            Some(v) => v,
            None => 0,
        },
        c.is_deleted == match is_deleted {
            Some(d) => d != 0,
            None => false,
        },
        c.data == data,
{
    SyncChange {
        table: table.to_owned(),
        uuid: match uuid {
            Some(u) => u,
            None => String::new(),
        },
        sync_version: match sync_version {
            Some(v) => v,
            None => 0,
        },
        data,
        is_deleted: match is_deleted {
            Some(d) => d != 0,
            None => false,
        },
    }
}

/// Merging is idempotent: once a change has been taken, pushing it again changes
/// nothing. A transaction taken is known and so ignored; a versioned change taken leaves
/// the giver's record at its version, and the same version again is refused.
pub proof fn law_merge_is_idempotent(table: Seq<char>, incoming: i64, local: Option<i64>)
    ensures
        merge_kind_of(table) == MergeKind::AppendOnly ==> append_only_action(true) == MergeAction::Ignore,
        merge_kind_of(table) == MergeKind::Versioned && (versioned_action(incoming, local)
            == MergeAction::Insert || versioned_action(incoming, local) == MergeAction::Upsert)
            ==> versioned_action(incoming, Some(incoming)) == MergeAction::Reject,
{
}

} // verus!
