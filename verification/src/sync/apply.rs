//! The baby's side of a pull: the giver's changes overwrite local records, and the
//! balances of the wallets they touch are recomputed.
use vstd::prelude::*;
use crate::sync::merge::{insert_statement, insert_text, insert_args, field_args};
use crate::sync::protocol::{FieldValue, SyncChange, SyncData, SyncField};
use crate::services::store::{SqlArg, SqlArgView, args_view};
use crate::services::transaction_service::Query;
use crate::text::text_eq;
use crate::models::transaction::{NewTransaction, recomputed_balance, signed_amount, lemma_type_names_distinct};

verus! {

/// The integer value of the first column named `key`, if it is an integer.
pub open spec fn int_field_of(fields: Seq<SyncField>, key: Seq<char>) -> Option<i64>
    decreases fields.len(),
{
    if fields.len() == 0 {
        None
    } else if fields[0].name@ == key {
        match fields[0].value {
            FieldValue::Int(n) => Some(n),
            _ => None,
        }
    } else {
        int_field_of(fields.drop_first(), key)
    }
}

/// The integer value of the column `key` of a change's data, if it has one.
pub open spec fn data_int(data: SyncData, key: Seq<char>) -> Option<i64> {
    match data {
        SyncData::Object(fields) => int_field_of(fields@, key),
        SyncData::Other(_) => None,
    }
}

/// The integer value of the column `key` of a change's data, if it has one.
pub fn data_int_field(data: &SyncData, key: &str) -> (r: Option<i64>)
    ensures
        r == data_int(*data, key@),
{
    match data {
        SyncData::Object(fields) => {
            let mut i: usize = 0;
            assert(fields@.skip(0) =~= fields@);
            while i < fields.len()
                invariant
                    i <= fields.len(),
                    data_int(*data, key@) == int_field_of(fields@, key@),
                    int_field_of(fields@, key@) == int_field_of(fields@.skip(i as int), key@),
                decreases fields.len() - i,
            {
                assert(fields@.skip(i as int)[0] == fields@[i as int]);
                assert(fields@.skip(i as int).drop_first() =~= fields@.skip(i + 1));
                if text_eq(fields[i].name.as_str(), key) {
                    assert(fields@.skip(i as int)[0].name@ == key@);
                    assert(fields@.skip(i as int).len() > 0);
                    assert(int_field_of(fields@.skip(i as int), key@) == match fields@[i as int].value {
                        FieldValue::Int(n) => Some(n),
                        _ => None,
                    });
                    return match &fields[i].value {
                        FieldValue::Int(n) => Some(*n),
                        _ => None,
                    };
                }
                i += 1;
            }
            None
        },
        SyncData::Other(_) => None,
    }
}

/// The one-element sequence of a present value, or nothing.
pub open spec fn opt_seq(o: Option<i64>) -> Seq<i64> {
    match o {
        Some(w) => seq![w],
        None => Seq::empty(),
    }
}

/// The wallets a change touches: the `wallet_id` of a wallet or transaction change, and
/// the `id` of a wallet change, where these are integers.
pub open spec fn touched_wallets(c: SyncChange) -> Seq<i64> {
    let is_wallet = c.table@ == "wallets"@;
    let is_tx = c.table@ == "transactions"@;
    opt_seq(if is_wallet || is_tx {
        data_int(c.data, "wallet_id"@)
    } else {
        None
    }) + opt_seq(if is_wallet {
        data_int(c.data, "id"@)
    } else {
        None
    })
}

/// `s` with the value of `o` appended, if present and not in `s` already.
pub open spec fn with_new(s: Seq<i64>, o: Option<i64>) -> Seq<i64> {
    match o {
        Some(w) => if s.contains(w) {
            s
        } else {
            s.push(w)
        },
        None => s,
    }
}

/// The values of `s` in the order they first appear, each once.
pub open spec fn first_appearances(s: Seq<i64>) -> Seq<i64>
    decreases s.len(),
{
    if s.len() == 0 {
        Seq::empty()
    } else {
        let p = first_appearances(s.drop_last());
        if p.contains(s.last()) {
            p
        } else {
            p.push(s.last())
        }
    }
}

/// The wallets the changes touch, change by change, repeats included.
pub open spec fn all_touched(changes: Seq<SyncChange>) -> Seq<i64>
    decreases changes.len(),
{
    if changes.len() == 0 {
        Seq::empty()
    } else {
        all_touched(changes.drop_last()) + touched_wallets(changes.last())
    }
}

/// Appending an optional value to a sequence keeps the first appearances of the values up
/// to date in the way `with_new` does.
proof fn lemma_first_appearances_step(s: Seq<i64>, o: Option<i64>)
    ensures
        first_appearances(s + opt_seq(o)) == with_new(first_appearances(s), o),
{
    match o {
        Some(w) => {
            assert((s + opt_seq(o)).drop_last() =~= s);
            assert((s + opt_seq(o)).last() == w);
        },
        None => {
            assert(s + opt_seq(o) =~= s);
        },
    }
}

/// Appends the value of `o`, if present and not there already.
fn push_new(ids: &mut Vec<i64>, o: Option<i64>)
    ensures
        final(ids)@ == with_new(old(ids)@, o),
        forall|x: i64| #[trigger] final(ids)@.contains(x) <==> (old(ids)@.contains(x) || opt_seq(o).contains(x)),
        (forall|a: int, b: int| 0 <= a < b < old(ids)@.len() ==> old(ids)@[a] != old(ids)@[b])
            ==> (forall|a: int, b: int| 0 <= a < b < final(ids)@.len() ==> final(ids)@[a] != final(ids)@[b]),
{
    let w = match o {
        Some(w) => w,
        None => {
            assert forall|x: i64| !opt_seq(o).contains(x) by {}
            return;
        },
    };
    assert forall|x: i64| opt_seq(o).contains(x) <==> x == w by {
        if x == w {
            assert(opt_seq(o)[0] == w);
        }
    }
    let mut i: usize = 0;
    while i < ids.len()
        invariant
            i <= ids.len(),
            ids@ == old(ids)@,
            o == Some(w),
            forall|x: i64| opt_seq(o).contains(x) <==> x == w,
            forall|k: int| 0 <= k < i ==> ids@[k] != w,
        decreases ids.len() - i,
    {
        if ids[i] == w {
            assert(ids@[i as int] == w);
            assert(ids@.contains(w));
            return;
        }
        i += 1;
    }
    let ghost before = ids@;
    ids.push(w);
    assert forall|x: i64| ids@.contains(x) <==> (before.contains(x) || x == w) by {
        if ids@.contains(x) {
            let k = choose|k: int| 0 <= k < ids@.len() && ids@[k] == x;
            if k < before.len() {
                assert(before[k] == x);
            }
        }
        if before.contains(x) {
            let k = choose|k: int| 0 <= k < before.len() && before[k] == x;
            assert(ids@[k] == x);
        }
        if x == w {
            assert(ids@[before.len() as int] == w);
        }
    }
}

/// The wallets whose balances a batch of changes may alter, each once, in the order they
/// first appear.
pub fn affected_wallet_ids(changes: &Vec<SyncChange>) -> (ids: Vec<i64>)
    ensures
        ids@ == first_appearances(all_touched(changes@)),
        forall|i: int, j: int| 0 <= i < j < ids@.len() ==> ids@[i] != ids@[j],
        forall|w: i64| ids@.contains(w) <==> exists|c: int|
            0 <= c < changes@.len() && #[trigger] touched_wallets(changes@[c]).contains(w),
{
    let mut ids: Vec<i64> = Vec::new();
    let mut i: usize = 0;
    while i < changes.len()
        invariant
            i <= changes.len(),
            ids@ == first_appearances(all_touched(changes@.take(i as int))),
            forall|a: int, b: int| 0 <= a < b < ids@.len() ==> ids@[a] != ids@[b],
            forall|w: i64| ids@.contains(w) <==> exists|c: int|
                0 <= c < i && #[trigger] touched_wallets(changes@[c]).contains(w),
        decreases changes.len() - i,
    {
        let change = &changes[i];
        let ghost before = ids@;
        let is_wallet = text_eq(change.table.as_str(), "wallets");
        let is_tx = text_eq(change.table.as_str(), "transactions");
        let wid = if is_wallet || is_tx {
            data_int_field(&change.data, "wallet_id")
        } else {
            None
        };
        let own = if is_wallet {
            data_int_field(&change.data, "id")
        } else {
            None
        };
        let ghost t = touched_wallets(changes@[i as int]);
        assert(t == opt_seq(wid) + opt_seq(own));
        push_new(&mut ids, wid);
        let ghost mid = ids@;
        push_new(&mut ids, own);
        proof {
            let prefix = all_touched(changes@.take(i as int));
            lemma_first_appearances_step(prefix, wid);
            lemma_first_appearances_step(prefix + opt_seq(wid), own);
            assert(changes@.take(i + 1).drop_last() =~= changes@.take(i as int));
            assert(changes@.take(i + 1).last() == changes@[i as int]);
            assert(prefix + opt_seq(wid) + opt_seq(own) =~= prefix + t);
            assert(all_touched(changes@.take(i + 1)) == prefix + t);
            assert forall|w: i64| t.contains(w) <==> (opt_seq(wid).contains(w) || opt_seq(own).contains(w)) by {
                if t.contains(w) {
                    let k = choose|k: int| 0 <= k < t.len() && t[k] == w;
                    if k < opt_seq(wid).len() {
                        assert(opt_seq(wid)[k] == w);
                    } else {
                        assert(opt_seq(own)[k - opt_seq(wid).len()] == w);
                    }
                }
                if opt_seq(wid).contains(w) {
                    let k = choose|k: int| 0 <= k < opt_seq(wid).len() && opt_seq(wid)[k] == w;
                    assert(t[k] == w);
                }
                if opt_seq(own).contains(w) {
                    let k = choose|k: int| 0 <= k < opt_seq(own).len() && opt_seq(own)[k] == w;
                    assert(t[k + opt_seq(wid).len()] == w);
                }
            }
            assert forall|w: i64| ids@.contains(w) <==> (before.contains(w) || t.contains(w)) by {
                assert(ids@.contains(w) <==> (mid.contains(w) || opt_seq(own).contains(w)));
                assert(mid.contains(w) <==> (before.contains(w) || opt_seq(wid).contains(w)));
            }
            assert forall|w: i64| ids@.contains(w) <==> exists|c: int|
                0 <= c < i + 1 && #[trigger] touched_wallets(changes@[c]).contains(w) by {
                if ids@.contains(w) && !before.contains(w) {
                    assert(touched_wallets(changes@[i as int]).contains(w));
                }
                if ids@.contains(w) && before.contains(w) {
                    let c = choose|c: int| 0 <= c < i && #[trigger] touched_wallets(changes@[c]).contains(w);
                    assert(touched_wallets(changes@[c]).contains(w));
                }
                if exists|c: int| 0 <= c < i + 1 && #[trigger] touched_wallets(changes@[c]).contains(w) {
                    let c = choose|c: int| 0 <= c < i + 1 && #[trigger] touched_wallets(changes@[c]).contains(w);
                    if c < i {
                        assert(before.contains(w));
                    }
                }
            }
        }
        i += 1;
    }
    assert(changes@.take(changes.len() as int) =~= changes@);
    ids
}

/// The statement and arguments that write one of the giver's changes locally, overwriting
/// any record in its place; `Err` when its data is not a JSON object.
pub fn upsert_from_giver(change: &SyncChange) -> (r: Result<(String, Vec<SqlArg>), String>)
    ensures
        change.data is Other ==> (r matches Err(m) && m@ == "Invalid change data"@),
        change.data matches SyncData::Object(fields) ==> (r matches Ok(p) && p.0@ == insert_text(
            change.table@,
            fields@,
            true,
        ) && args_view(p.1@) == field_args(fields@)),
{
    match &change.data {
        SyncData::Object(fields) => Ok(
            (insert_statement(change.table.as_str(), fields, true), insert_args(fields)),
        ),
        SyncData::Other(_) => Err("Invalid change data".to_owned()),
    }
}

/// Whether `w` is the write of the giver's change `c`: its upsert statement and arguments.
pub open spec fn is_upsert_of(w: (String, Vec<SqlArg>), c: SyncChange) -> bool {
    c.data matches SyncData::Object(fields) && w.0@ == insert_text(c.table@, fields@, true)
        && args_view(w.1@) == field_args(fields@)
}

/// What applying a pull writes, in order, before the balances are recomputed.
#[derive(Debug)]
pub struct ApplyPlan {
    /// The upserts of the changes, in order, up to the first one whose data is no object.
    pub writes: Vec<(String, Vec<SqlArg>)>,
    /// The error of that change, when there is one: the pull then stops after the writes.
    pub failure: Option<String>,
    /// The wallets whose balances are then recomputed, each once.
    pub wallets: Vec<i64>,
}

/// Plans applying the giver's changes: each is upserted in turn; a change whose data is no
/// JSON object stops the pull with `Invalid change data` after the ones before it; else
/// the balances of the wallets the changes touch are recomputed.
pub fn plan_apply(changes: &Vec<SyncChange>) -> (p: ApplyPlan)
    ensures
        p.writes@.len() <= changes@.len(),
        forall|i: int| 0 <= i < p.writes@.len() ==> is_upsert_of(#[trigger] p.writes@[i], changes@[i]),
        p.failure is None ==> p.writes@.len() == changes@.len(),
        p.failure matches Some(m) ==> (m@ == "Invalid change data"@ && p.writes@.len() < changes@.len()
            && changes@[p.writes@.len() as int].data is Other),
        p.wallets@ == first_appearances(all_touched(changes@)),
{
    let mut writes: Vec<(String, Vec<SqlArg>)> = Vec::new();
    let mut failure: Option<String> = None;
    let mut i: usize = 0;
    while i < changes.len()
        invariant_except_break
            i <= changes.len(),
            writes@.len() == i,
            failure is None,
            forall|k: int| 0 <= k < i ==> is_upsert_of(#[trigger] writes@[k], changes@[k]),
        ensures
            writes@.len() <= changes@.len(),
            forall|k: int| 0 <= k < writes@.len() ==> is_upsert_of(#[trigger] writes@[k], changes@[k]),
            failure is None ==> writes@.len() == changes@.len(),
            failure matches Some(m) ==> (m@ == "Invalid change data"@ && writes@.len() < changes@.len()
                && changes@[writes@.len() as int].data is Other),
        decreases changes.len() - i,
    {
        match upsert_from_giver(&changes[i]) {
            Ok(w) => {
                writes.push(w);
            },
            Err(m) => {
                failure = Some(m);
                break;
            },
        }
        i += 1;
    }
    let wallets = affected_wallet_ids(changes);
    ApplyPlan { writes, failure, wallets }
}

/// One transaction of a wallet, as far as its balance goes: its type and amount.
#[derive(Debug, Clone)]
pub struct LedgerEntry {
    pub type_: String,
    pub amount_cents: i64,
}

/// The types of the entries, in order.
pub open spec fn entry_types(entries: Seq<LedgerEntry>) -> Seq<Seq<char>> {
    Seq::new(entries.len(), |k: int| entries[k].type_@)
}

/// The amounts of the entries, in order.
pub open spec fn entry_amounts(entries: Seq<LedgerEntry>) -> Seq<int> {
    Seq::new(entries.len(), |k: int| entries[k].amount_cents as int)
}

/// Whether summing the entries in order (credits added, anything else taken away) stays
/// within `i64` at every step, as the store's sum must.
pub open spec fn ledger_fits(entries: Seq<LedgerEntry>) -> bool {
    forall|k: int|
        0 <= k <= entries.len() ==> i64::MIN <= #[trigger] recomputed_balance(
            entry_types(entries).take(k),
            entry_amounts(entries).take(k),
        ) <= i64::MAX
}

/// A wallet's balance recomputed from its live transactions: credits added, anything else
/// taken away (0 without transactions); `None` when the sum leaves `i64`.
pub fn ledger_balance(entries: &Vec<LedgerEntry>) -> (r: Option<i64>)
    ensures
        r is Some <==> ledger_fits(entries@),
        r matches Some(b) ==> b == recomputed_balance(entry_types(entries@), entry_amounts(entries@)),
{
    let ghost types = entry_types(entries@);
    let ghost amounts = entry_amounts(entries@);
    let mut acc: i64 = 0;
    let mut i: usize = 0;
    assert(types.take(0) =~= Seq::<Seq<char>>::empty());
    while i < entries.len()
        invariant
            i <= entries.len(),
            types == entry_types(entries@),
            amounts == entry_amounts(entries@),
            acc == recomputed_balance(types.take(i as int), amounts.take(i as int)),
            forall|k: int|
                0 <= k <= i ==> i64::MIN <= #[trigger] recomputed_balance(types.take(k), amounts.take(k))
                    <= i64::MAX,
        decreases entries.len() - i,
    {
        let e = &entries[i];
        proof {
            assert(types.take(i + 1).drop_last() =~= types.take(i as int));
            assert(amounts.take(i + 1).drop_last() =~= amounts.take(i as int));
            assert(types.take(i + 1).last() == e.type_@);
            assert(amounts.take(i + 1).last() == e.amount_cents as int);
        }
        let next: i128 = if crate::text::text_eq(e.type_.as_str(), "credit") {
            acc as i128 + e.amount_cents as i128
        } else {
            acc as i128 - e.amount_cents as i128
        };
        assert(next == recomputed_balance(types.take(i + 1), amounts.take(i + 1)));
        if next < i64::MIN as i128 || next > i64::MAX as i128 {
            assert(!ledger_fits(entries@));
            return None;
        }
        acc = next as i64;
        i += 1;
    }
    assert(types.take(entries.len() as int) =~= types);
    assert(amounts.take(entries.len() as int) =~= amounts);
    Some(acc)
}

/// The statement that reads a wallet's live transactions, as ledger entries.
pub fn ledger_query(wallet_id: i64) -> (q: Query)
    ensures
        q.sql@ == "SELECT type, amount_cents FROM transactions WHERE wallet_id = ? AND is_deleted = 0"@,
        args_view(q.args@) == seq![SqlArgView::Int(wallet_id)],
{
    let mut args: Vec<SqlArg> = Vec::new();
    args.push(SqlArg::Int(wallet_id));
    assert(args_view(args@) =~= seq![SqlArgView::Int(wallet_id)]);
    Query {
        sql: "SELECT type, amount_cents FROM transactions WHERE wallet_id = ? AND is_deleted = 0".to_owned(),
        args,
    }
}

/// The statement that stores a wallet's recomputed balance.
pub fn balance_update_query(wallet_id: i64, balance: i64) -> (q: Query)
    ensures
        q.sql@ == "UPDATE wallets SET balance_cents = ? WHERE id = ?"@,
        args_view(q.args@) == seq![SqlArgView::Int(balance), SqlArgView::Int(wallet_id)],
{
    let mut args: Vec<SqlArg> = Vec::new();
    args.push(SqlArg::Int(balance));
    args.push(SqlArg::Int(wallet_id));
    assert(args_view(args@) =~= seq![SqlArgView::Int(balance), SqlArgView::Int(wallet_id)]);
    Query { sql: "UPDATE wallets SET balance_cents = ? WHERE id = ?".to_owned(), args }
}

/// The statement that records `at` as the time of the last sync.
pub fn record_sync_query(at: &str) -> (q: Query)
    ensures
        q.sql@ == "INSERT OR REPLACE INTO sync_state (key, value) VALUES ('last_sync_timestamp', ?)"@,
        args_view(q.args@) == seq![SqlArgView::Text(at@)],
{
    let mut args: Vec<SqlArg> = Vec::new();
    args.push(SqlArg::Text(at.to_owned()));
    assert(args_view(args@) =~= seq![SqlArgView::Text(at@)]);
    Query {
        sql: "INSERT OR REPLACE INTO sync_state (key, value) VALUES ('last_sync_timestamp', ?)".to_owned(),
        args,
    }
}

/// The statement that reads the time of the last sync.
pub fn last_sync_query() -> (s: String)
    ensures
        s@ == "SELECT value FROM sync_state WHERE key = 'last_sync_timestamp'"@,
{
    "SELECT value FROM sync_state WHERE key = 'last_sync_timestamp'".to_owned()
}

/// The ledger entry a recorded transaction adds to its wallet.
pub open spec fn entry_of(t: NewTransaction) -> LedgerEntry {
    LedgerEntry { type_: t.type_, amount_cents: t.amount_cents }
}

/// A wallet whose stored balance is what its transactions sum to stays so after any write
/// that moves money (a disbursement, an approval, a manual entry, an opening credit): each
/// moves the balance by the signed amount of the credit or debit it records, which is what
/// the sum gains when that transaction joins the ledger.
pub proof fn law_writes_keep_balance_on_ledger(
    entries: Seq<LedgerEntry>,
    balance: int,
    t: NewTransaction,
    new_balance: int,
)
    requires
        balance == recomputed_balance(entry_types(entries), entry_amounts(entries)),
        t.type_@ == "credit"@ || t.type_@ == "debit"@,
        new_balance == balance + signed_amount(t.type_@, t.amount_cents as int),
    ensures
        new_balance == recomputed_balance(
            entry_types(entries.push(entry_of(t))),
            entry_amounts(entries.push(entry_of(t))),
        ),
{
    lemma_type_names_distinct();
    let after = entries.push(entry_of(t));
    assert(entry_types(after).drop_last() =~= entry_types(entries));
    assert(entry_amounts(after).drop_last() =~= entry_amounts(entries));
    assert(entry_types(after).last() == t.type_@);
    assert(entry_amounts(after).last() == t.amount_cents as int);
}

/// Over a wallet's whole history: when it starts at zero and each write moves the balance
/// by the signed amount of the credit or debit it records (as every operation that moves
/// money states), the balance after any number of writes is what its transactions so far
/// sum to, which is what `ledger_balance` recomputes.
pub proof fn law_wallet_history_matches_ledger(entries: Seq<LedgerEntry>, balances: Seq<int>)
    requires
        balances.len() == entries.len() + 1,
        balances[0] == 0,
        forall|k: int| 0 <= k < entries.len() ==> #[trigger] entries[k].type_@ == "credit"@ || entries[k].type_@ == "debit"@,
        forall|k: int|
            0 <= k < entries.len() ==> balances[k + 1] == balances[k] + signed_amount(
                #[trigger] entries[k].type_@,
                entries[k].amount_cents as int,
            ),
    ensures
        forall|k: int|
            0 <= k <= entries.len() ==> #[trigger] balances[k] == recomputed_balance(
                entry_types(entries.take(k)),
                entry_amounts(entries.take(k)),
            ),
    decreases entries.len(),
{
    lemma_type_names_distinct();
    if entries.len() > 0 {
        let n = entries.len() - 1;
        let init = entries.drop_last();
        assert forall|k: int| 0 <= k < init.len() implies #[trigger] init[k].type_@ == "credit"@ || init[k].type_@ == "debit"@ by {
            assert(init[k] == entries[k]);
        }
        assert forall|k: int|
            0 <= k < init.len() implies balances.drop_last()[k + 1] == balances.drop_last()[k] + signed_amount(
                #[trigger] init[k].type_@,
                init[k].amount_cents as int,
            ) by {
            assert(init[k] == entries[k]);
            assert(entries[k].type_@ == init[k].type_@);
        }
        law_wallet_history_matches_ledger(init, balances.drop_last());
        assert forall|k: int| 0 <= k <= entries.len() implies #[trigger] balances[k] == recomputed_balance(
            entry_types(entries.take(k)),
            entry_amounts(entries.take(k)),
        ) by {
            if k < entries.len() {
                assert(entries.take(k) =~= init.take(k));
                assert(balances.drop_last()[k] == balances[k]);
            } else {
                assert(init.take(n) =~= init);
                assert(entries.take(k) =~= entries);
                assert(balances.drop_last()[n] == balances[n]);
                assert(entries[n].type_@ == "credit"@ || entries[n].type_@ == "debit"@);
                assert(entry_types(entries).drop_last() =~= entry_types(init));
                assert(entry_amounts(entries).drop_last() =~= entry_amounts(init));
            }
        }
    }
}

} // verus!
