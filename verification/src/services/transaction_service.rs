//! Transactions: manual credits and debits, filtered listings and monthly summaries.
use vstd::prelude::*;
use crate::error::{AppError, fails_validation, fails_not_found};
use crate::models::params::{ManualTransactionParams, TransactionFilters};
use crate::models::wallet::WalletState;
use crate::models::transaction::{NewTransaction, TransactionType, signed_amount, lemma_type_names_distinct};
use crate::services::store::{SqlArg, SqlArgView, args_view, clause_if, opt_int_arg, opt_text_arg, push_opt_int, push_opt_text};
use crate::text::{append_text, copy_opt_text, decimal, decimal_of, zero_padded, zero_padded_of, zeros, text_lt, pow10, lemma_zero_padded_fixed, lemma_fixed_digits_order, lemma_text_lt_parts};
use crate::time::{UtcDateTime, sql_datetime_text};

verus! {

/// Totals of a family's transactions over one calendar month.
#[derive(Debug, Clone)]
pub struct MonthlySummary {
    pub total_credit_cents: i64,
    pub total_debit_cents: i64,
    pub net_change_cents: i64,
    pub transaction_count: i64,
}

/// Checks the parts of a manual transaction that need no lookup: a positive amount and a
/// type of `credit` or `debit`.
pub fn validate_manual_transaction(params: &ManualTransactionParams) -> (r: Result<TransactionType, AppError>)
    ensures
        params.amount_cents <= 0 ==> fails_validation(r, "Amount must be greater than 0"@),
        params.amount_cents > 0 && TransactionType::named(params.transaction_type@) is None
            ==> fails_validation(r, "Transaction type must be 'credit' or 'debit'"@),
        params.amount_cents > 0 && TransactionType::named(params.transaction_type@) is Some
            ==> r == Ok::<TransactionType, AppError>(TransactionType::named(params.transaction_type@)->0),
{
    if params.amount_cents <= 0 {
        return Err(AppError::validation("Amount must be greater than 0"));
    }
    match TransactionType::from_name(params.transaction_type.as_str()) {
        Some(t) => Ok(t),
        None => Err(AppError::validation("Transaction type must be 'credit' or 'debit'")),
    }
}

/// What the store writes for a manual transaction.
#[derive(Debug)]
pub struct ManualEntry {
    /// The transaction to record.
    pub transaction: NewTransaction,
    /// The wallet's balance after it.
    pub new_balance: i64,
    /// The wallet's next version.
    pub wallet_sync_version: i64,
}

/// Whether a valid manual transaction keeps the wallet's balance and version within `i64`.
pub open spec fn manual_fits(wallet: Option<WalletState>, params: ManualTransactionParams) -> bool {
    match wallet {
        Some(w) => params.amount_cents > 0 && TransactionType::named(params.transaction_type@) is Some
            ==> {
            &&& i64::MIN <= w.balance_cents + signed_amount(
                params.transaction_type@,
                params.amount_cents as int,
            ) <= i64::MAX
            &&& w.sync_version < i64::MAX
        },
        None => true,
    }
}

/// Records money in (`credit`) or out (`debit`) of a wallet by hand, given the wallet's
/// balance (`None` when the wallet does not exist or is deleted). A debit may not take
/// the balance below zero.
pub fn create_manual_transaction(params: &ManualTransactionParams, wallet: Option<WalletState>) -> (r:
    Result<ManualEntry, AppError>)
    requires
        manual_fits(wallet, *params),
    ensures
        params.amount_cents <= 0 ==> fails_validation(r, "Amount must be greater than 0"@),
        params.amount_cents > 0 && TransactionType::named(params.transaction_type@) is None
            ==> fails_validation(r, "Transaction type must be 'credit' or 'debit'"@),
        params.amount_cents > 0 && TransactionType::named(params.transaction_type@) is Some
            && wallet is None ==> fails_not_found(r, "wallet"@),
        params.amount_cents > 0 && TransactionType::named(params.transaction_type@) is Some
            && wallet is Some ==> {
            let b = wallet->0.balance_cents;
            let nb = b + signed_amount(params.transaction_type@, params.amount_cents as int);
            &&& params.transaction_type@ == "debit"@ && nb < 0 ==> fails_validation(
                r,
                "Insufficient balance"@,
            )
            &&& !(params.transaction_type@ == "debit"@ && nb < 0) ==> (r matches Ok(e) && {
                &&& e.new_balance == nb
                &&& e.wallet_sync_version == wallet->0.sync_version + 1
                &&& e.transaction.family_id == params.family_id
                &&& e.transaction.wallet_id == params.wallet_id
                &&& e.transaction.type_@ == params.transaction_type@
                &&& e.transaction.amount_cents == params.amount_cents
                &&& e.transaction.source_type@ == "manual"@
                &&& e.transaction.source_id is None
                &&& e.transaction.category == params.category
                &&& e.transaction.notes == params.notes
                &&& e.new_balance == b + signed_amount(
                    e.transaction.type_@,
                    e.transaction.amount_cents as int,
                )
            })
        },
        params.transaction_type@ == "debit"@ ==> (r matches Ok(e) ==> e.new_balance >= 0),
{
    proof {
        lemma_type_names_distinct();
    }
    let t = validate_manual_transaction(params)?;
    let w = match wallet {
        Some(w) => w,
        None => {
            return Err(AppError::not_found("wallet"));
        },
    };
    let balance = w.balance_cents;
    let new_balance = match t {
        TransactionType::Credit => balance + params.amount_cents,
        TransactionType::Debit => balance - params.amount_cents,
    };
    if matches!(t, TransactionType::Debit) && new_balance < 0 {
        return Err(AppError::validation("Insufficient balance"));
    }
    Ok(ManualEntry {
        transaction: NewTransaction {
            family_id: params.family_id,
            wallet_id: params.wallet_id,
            type_: params.transaction_type.clone(),
            amount_cents: params.amount_cents,
            source_type: "manual".to_owned(),
            source_id: None,
            category: copy_opt_text(&params.category),
            notes: copy_opt_text(&params.notes),
        },
        new_balance,
        wallet_sync_version: w.sync_version + 1,
    })
}

/// The first instant of a month as the store writes times: `YYYY-MM-01 00:00:00`, with
/// the year zero-padded to four characters as `{:04}` writes it.
pub open spec fn month_start_text(year: int, month: int) -> Seq<char> {
    zero_padded(year, 4) + "-"@ + zero_padded(month, 2) + "-01 00:00:00"@
}

/// The first instant after month `month` of `year` (the next January for December).
pub open spec fn month_end_text(year: int, month: int) -> Seq<char> {
    if month == 12 {
        zero_padded(year + 1, 4) + "-01-01 00:00:00"@
    } else {
        month_start_text(year, month + 1)
    }
}

/// The bounds of a calendar month, from its first instant (inclusive) to the first
/// instant of the next month (exclusive). The month must be between 1 and 12.
pub fn month_bounds(year: i32, month: u32) -> (r: Result<(String, String), AppError>)
    requires
        month == 12 ==> year < i32::MAX,
    ensures
        !(1 <= month <= 12) ==> fails_validation(r, "Month must be between 1 and 12"@),
        1 <= month <= 12 ==> (r matches Ok(b) && b.0@ == month_start_text(year as int, month as int)
            && b.1@ == month_end_text(year as int, month as int)),
{
    if month < 1 || month > 12 {
        return Err(AppError::validation("Month must be between 1 and 12"));
    }
    let mut start = zero_padded_of(year as i64, 4);
    append_text(&mut start, "-");
    append_text(&mut start, zero_padded_of(month as i64, 2).as_str());
    append_text(&mut start, "-01 00:00:00");
    let end = if month == 12 {
        let mut e = zero_padded_of(year as i64 + 1, 4);
        append_text(&mut e, "-01-01 00:00:00");
        e
    } else {
        let mut e = zero_padded_of(year as i64, 4);
        append_text(&mut e, "-");
        append_text(&mut e, zero_padded_of(month as i64 + 1, 2).as_str());
        append_text(&mut e, "-01 00:00:00");
        e
    };
    Ok((start, end))
}

/// The statement that sums the amounts of the family's live transactions of type `kind`
/// within a month window (0 when there are none).
pub fn month_total_query(family_id: i64, kind: &str, start: &str, end: &str) -> (q: Query)
    ensures
        q.sql@ == "SELECT COALESCE(SUM(amount_cents), 0) FROM transactions WHERE family_id = ? AND type = ? AND is_deleted = 0 AND occurred_at >= ? AND occurred_at < ?"@,
        args_view(q.args@) == seq![
            SqlArgView::Int(family_id),
            SqlArgView::Text(kind@),
            SqlArgView::Text(start@),
            SqlArgView::Text(end@),
        ],
{
    let mut args: Vec<SqlArg> = Vec::new();
    args.push(SqlArg::Int(family_id));
    args.push(SqlArg::Text(kind.to_owned()));
    args.push(SqlArg::Text(start.to_owned()));
    args.push(SqlArg::Text(end.to_owned()));
    assert(args_view(args@) =~= seq![
        SqlArgView::Int(family_id),
        SqlArgView::Text(kind@),
        SqlArgView::Text(start@),
        SqlArgView::Text(end@),
    ]);
    Query {
        sql: "SELECT COALESCE(SUM(amount_cents), 0) FROM transactions WHERE family_id = ? AND type = ? AND is_deleted = 0 AND occurred_at >= ? AND occurred_at < ?".to_owned(),
        args,
    }
}

/// The statement that counts the family's live transactions within a month window.
pub fn month_count_query(family_id: i64, start: &str, end: &str) -> (q: Query)
    ensures
        q.sql@ == "SELECT COUNT(*) FROM transactions WHERE family_id = ? AND is_deleted = 0 AND occurred_at >= ? AND occurred_at < ?"@,
        args_view(q.args@) == seq![SqlArgView::Int(family_id), SqlArgView::Text(start@), SqlArgView::Text(end@)],
{
    let mut args: Vec<SqlArg> = Vec::new();
    args.push(SqlArg::Int(family_id));
    args.push(SqlArg::Text(start.to_owned()));
    args.push(SqlArg::Text(end.to_owned()));
    assert(args_view(args@) =~= seq![SqlArgView::Int(family_id), SqlArgView::Text(start@), SqlArgView::Text(end@)]);
    Query {
        sql: "SELECT COUNT(*) FROM transactions WHERE family_id = ? AND is_deleted = 0 AND occurred_at >= ? AND occurred_at < ?".to_owned(),
        args,
    }
}

/// The summary of month `month` of `year` from the store's totals over that month (a
/// missing total counts as zero): refused with a validation error unless the month is 1
/// to 12; the net change is credits minus debits.
pub fn get_monthly_summary(
    year: i32,
    month: u32,
    total_credit: Option<i64>,
    total_debit: Option<i64>,
    count: i64,
) -> (r: Result<MonthlySummary, AppError>)
    requires
        1 <= month <= 12 ==> i64::MIN <= total_credit.unwrap_or(0) - total_debit.unwrap_or(0)
            <= i64::MAX,
    ensures
        !(1 <= month <= 12) ==> fails_validation(r, "Month must be between 1 and 12"@),
        1 <= month <= 12 ==> (r matches Ok(m) && {
            &&& m.total_credit_cents == total_credit.unwrap_or(0)
            &&& m.total_debit_cents == total_debit.unwrap_or(0)
            &&& m.net_change_cents == m.total_credit_cents - m.total_debit_cents
            &&& m.transaction_count == count
        }),
{
    if month < 1 || month > 12 {
        return Err(AppError::validation("Month must be between 1 and 12"));
    }
    let total_credit_cents = total_credit.unwrap_or(0);
    let total_debit_cents = total_debit.unwrap_or(0);
    Ok(MonthlySummary {
        total_credit_cents,
        total_debit_cents,
        net_change_cents: total_credit_cents - total_debit_cents,
        transaction_count: count,
    })
}

/// The months of a year follow one another without gap or overlap: each month's window
/// ends where the next one starts, and December's ends where January of the next year
/// starts.
pub proof fn law_month_windows_partition_the_year(year: int, month: int)
    requires
        1 <= month <= 12,
    ensures
        month < 12 ==> month_end_text(year, month) == month_start_text(year, month + 1),
        month == 12 ==> month_end_text(year, month) == month_start_text(year + 1, 1),
{
    if month == 12 {
        reveal_strlit("-01-01 00:00:00");
        reveal_strlit("-");
        reveal_strlit("-01 00:00:00");
        assert(zeros(1) =~= seq!['0']);
        assert(zero_padded(1, 2) =~= seq!['0', '1']);
        assert(month_start_text(year + 1, 1) =~= zero_padded(year + 1, 4) + "-01-01 00:00:00"@);
    }
}

/// Whether the store counts a time written as `text` in month `month` of `year`: at or
/// after the month's first instant and before the next month's.
pub open spec fn in_month_window(text: Seq<char>, year: int, month: int) -> bool {
    !text_lt(text, month_start_text(year, month)) && text_lt(text, month_end_text(year, month))
}

/// Numbers below `10^w` zero-padded to `w` characters compare as texts as they compare as
/// numbers.
proof fn lemma_padded_order(a: int, b: int, w: nat)
    requires
        w >= 1,
        0 <= a < pow10(w),
        0 <= b < pow10(w),
    ensures
        zero_padded(a, w as int).len() == w,
        text_lt(zero_padded(a, w as int), zero_padded(b, w as int)) == (a < b),
        (zero_padded(a, w as int) == zero_padded(b, w as int)) == (a == b),
{
    lemma_zero_padded_fixed(a as nat, w);
    lemma_zero_padded_fixed(b as nat, w);
    lemma_fixed_digits_order(a as nat, b as nat, w);
}

/// The second a stored time shows (60 for a leap second).
pub open spec fn shown_second(t: UtcDateTime) -> int {
    t.second as int + t.nanosecond as int / 1_000_000_000
}

/// What follows the month in a stored time: the day, hour, minute and second.
pub open spec fn after_month(t: UtcDateTime) -> Seq<char> {
    seq!['-'] + zero_padded(t.day as int, 2) + seq![' '] + zero_padded(t.hour as int, 2) + seq![':']
        + zero_padded(t.minute as int, 2) + seq![':'] + zero_padded(shown_second(t), 2)
}

/// What follows the month in a month's first instant.
pub open spec fn month_first_instant() -> Seq<char> {
    let z = zero_padded(0, 2);
    seq!['-'] + zero_padded(1, 2) + seq![' '] + z + seq![':'] + z + seq![':'] + z
}

/// No time of a month is before its first instant.
proof fn lemma_not_before_first_instant(t: UtcDateTime)
    requires
        t.wf(),
    ensures
        !text_lt(after_month(t), month_first_instant()),
{
    reveal_with_fuel(pow10, 3);
    let z = zero_padded(0, 2);
    let sec = shown_second(t);
    let r3 = seq![':'] + zero_padded(sec, 2);
    let s3 = seq![':'] + z;
    let r2 = seq![':'] + (zero_padded(t.minute as int, 2) + r3);
    let s2 = seq![':'] + (z + s3);
    let r1 = seq![' '] + (zero_padded(t.hour as int, 2) + r2);
    let s1 = seq![' '] + (z + s2);
    let r0 = zero_padded(t.day as int, 2) + r1;
    let s0 = zero_padded(1, 2) + s1;
    assert(after_month(t) =~= seq!['-'] + r0);
    assert(month_first_instant() =~= seq!['-'] + s0);
    lemma_padded_order(sec, 0, 2);
    lemma_text_lt_parts(seq![':'], seq![':'], zero_padded(sec, 2), z);
    lemma_padded_order(t.minute as int, 0, 2);
    lemma_text_lt_parts(zero_padded(t.minute as int, 2), z, r3, s3);
    lemma_text_lt_parts(seq![':'], seq![':'], zero_padded(t.minute as int, 2) + r3, z + s3);
    lemma_padded_order(t.hour as int, 0, 2);
    lemma_text_lt_parts(zero_padded(t.hour as int, 2), z, r2, s2);
    lemma_text_lt_parts(seq![' '], seq![' '], zero_padded(t.hour as int, 2) + r2, z + s2);
    lemma_padded_order(t.day as int, 1, 2);
    lemma_text_lt_parts(zero_padded(t.day as int, 2), zero_padded(1, 2), r1, s1);
    lemma_text_lt_parts(seq!['-'], seq!['-'], r0, s0);
}

proof fn lemma_pow10_values()
    ensures
        pow10(2) == 100,
        pow10(4) == 10000,
{
    reveal_with_fuel(pow10, 5);
}

/// A stored time of a four-digit year, split at the year and the month.
proof fn lemma_stored_time_parts(t: UtcDateTime)
    requires
        0 <= t.year <= 9999,
    ensures
        sql_datetime_text(t) =~= zero_padded(t.year as int, 4) + (seq!['-'] + (zero_padded(
            t.month as int,
            2,
        ) + after_month(t))),
{
    let yy = zero_padded(t.year as int, 4);
    let m = zero_padded(t.month as int, 2);
    let d = zero_padded(t.day as int, 2);
    let h = zero_padded(t.hour as int, 2);
    let mi = zero_padded(t.minute as int, 2);
    let sec = zero_padded(shown_second(t), 2);
    let p = yy + seq!['-'] + m;
    let a1 = seq!['-'] + d;
    let a2 = a1 + seq![' '];
    let a3 = a2 + h;
    let a4 = a3 + seq![':'];
    let a5 = a4 + mi;
    let a6 = a5 + seq![':'];
    let a7 = a6 + sec;
    assert(sql_datetime_text(t) == p + seq!['-'] + d + seq![' '] + h + seq![':'] + mi + seq![':'] + sec);
    assert(p + seq!['-'] + d =~= p + a1);
    assert(p + a1 + seq![' '] =~= p + a2);
    assert(p + a2 + h =~= p + a3);
    assert(p + a3 + seq![':'] =~= p + a4);
    assert(p + a4 + mi =~= p + a5);
    assert(p + a5 + seq![':'] =~= p + a6);
    assert(p + a6 + sec =~= p + a7);
    assert(after_month(t) == a7);
    assert(p + a7 =~= yy + (seq!['-'] + (m + a7)));
}

/// A month's first instant, split at the year and the month.
proof fn lemma_month_start_parts(year: int, month: int)
    ensures
        month_start_text(year, month) =~= zero_padded(year, 4) + (seq!['-'] + (zero_padded(month, 2)
            + month_first_instant())),
{
    reveal_strlit("-");
    reveal_strlit("-01 00:00:00");
    assert(zeros(1) =~= seq!['0']);
    assert(zero_padded(1, 2) =~= seq!['0', '1']);
    assert(zero_padded(0, 2) =~= seq!['0', '0']);
    assert("-01 00:00:00"@ =~= month_first_instant());
}

/// Whether the stored time `t` comes before the first instant of month `month` of its
/// year: exactly when its month is earlier.
proof fn lemma_before_month_start(t: UtcDateTime, month: int)
    requires
        t.wf(),
        0 <= t.year <= 9999,
        1 <= month <= 12,
    ensures
        text_lt(sql_datetime_text(t), month_start_text(t.year as int, month)) == (t.month < month),
{
    lemma_pow10_values();
    let yy = zero_padded(t.year as int, 4);
    let rest = after_month(t);
    let first = month_first_instant();
    let tm = zero_padded(t.month as int, 2) + rest;
    let sm = zero_padded(month, 2) + first;
    lemma_stored_time_parts(t);
    lemma_month_start_parts(t.year as int, month);
    lemma_text_lt_parts(yy, yy, seq!['-'] + tm, seq!['-'] + sm);
    lemma_text_lt_parts(seq!['-'], seq!['-'], tm, sm);
    lemma_padded_order(t.month as int, month, 2);
    lemma_text_lt_parts(zero_padded(t.month as int, 2), zero_padded(month, 2), rest, first);
    lemma_not_before_first_instant(t);
}

/// A stored time of a year of four digits (before the last one) falls in the window of
/// exactly its own month of that year, as the store compares texts.
pub proof fn lemma_month_window_membership(t: UtcDateTime, month: int)
    requires
        t.wf(),
        0 <= t.year <= 9998,
        1 <= month <= 12,
    ensures
        in_month_window(sql_datetime_text(t), t.year as int, month) == (t.month == month),
{
    let y = t.year as int;
    lemma_before_month_start(t, month);
    if month < 12 {
        lemma_before_month_start(t, month + 1);
        assert(month_end_text(y, month) == month_start_text(y, month + 1));
    } else {
        lemma_pow10_values();
        reveal_strlit("-01-01 00:00:00");
        let yy = zero_padded(y, 4);
        let next = zero_padded(y + 1, 4);
        lemma_stored_time_parts(t);
        assert(month_end_text(y, month) == next + "-01-01 00:00:00"@);
        lemma_padded_order(y, y + 1, 4);
        lemma_padded_order(y + 1, y, 4);
        lemma_text_lt_parts(
            yy,
            next,
            seq!['-'] + (zero_padded(t.month as int, 2) + after_month(t)),
            "-01-01 00:00:00"@,
        );
    }
}

/// What a transaction adds to a total: 1 to the count (`kind` is `None`), its amount to
/// the total of its type, 0 to the total of the other type.
pub open spec fn weight(tx: (UtcDateTime, Seq<char>, int), kind: Option<Seq<char>>) -> int {
    match kind {
        None => 1,
        Some(k) => if tx.1 == k {
            tx.2
        } else {
            0
        },
    }
}

/// The count (`kind` is `None`) or the total amount of type `kind` of the transactions
/// (when, type, amount) that the store counts in month `month` of `year`.
pub open spec fn window_total(
    txs: Seq<(UtcDateTime, Seq<char>, int)>,
    kind: Option<Seq<char>>,
    year: int,
    month: int,
) -> int
    decreases txs.len(),
{
    if txs.len() == 0 {
        0
    } else {
        window_total(txs.drop_last(), kind, year, month) + if in_month_window(
            sql_datetime_text(txs.last().0),
            year,
            month,
        ) {
            weight(txs.last(), kind)
        } else {
            0
        }
    }
}

/// The monthly counts or totals of months 1 to `k` of `year`, added up.
pub open spec fn months_total(
    txs: Seq<(UtcDateTime, Seq<char>, int)>,
    kind: Option<Seq<char>>,
    year: int,
    k: int,
) -> int
    decreases k,
{
    if k <= 0 {
        0
    } else {
        months_total(txs, kind, year, k - 1) + window_total(txs, kind, year, k)
    }
}

/// The count or total amount of type `kind` of all the transactions.
pub open spec fn grand_total(txs: Seq<(UtcDateTime, Seq<char>, int)>, kind: Option<Seq<char>>) -> int
    decreases txs.len(),
{
    if txs.len() == 0 {
        0
    } else {
        grand_total(txs.drop_last(), kind) + weight(txs.last(), kind)
    }
}

/// What one transaction adds over months 1 to `k` of `year`.
pub open spec fn one_in_months(tx: (UtcDateTime, Seq<char>, int), kind: Option<Seq<char>>, year: int, k: int) -> int
    decreases k,
{
    if k <= 0 {
        0
    } else {
        one_in_months(tx, kind, year, k - 1) + if in_month_window(sql_datetime_text(tx.0), year, k) {
            weight(tx, kind)
        } else {
            0
        }
    }
}

proof fn lemma_months_total_step(txs: Seq<(UtcDateTime, Seq<char>, int)>, kind: Option<Seq<char>>, year: int, k: int)
    requires
        txs.len() > 0,
    ensures
        months_total(txs, kind, year, k) == months_total(txs.drop_last(), kind, year, k) + one_in_months(
            txs.last(),
            kind,
            year,
            k,
        ),
    decreases k,
{
    if k > 0 {
        lemma_months_total_step(txs, kind, year, k - 1);
    }
}

proof fn lemma_months_total_empty(txs: Seq<(UtcDateTime, Seq<char>, int)>, kind: Option<Seq<char>>, year: int, k: int)
    requires
        txs.len() == 0,
    ensures
        months_total(txs, kind, year, k) == 0,
    decreases k,
{
    if k > 0 {
        lemma_months_total_empty(txs, kind, year, k - 1);
    }
}

proof fn lemma_one_in_months(tx: (UtcDateTime, Seq<char>, int), kind: Option<Seq<char>>, k: int)
    requires
        tx.0.wf(),
        0 <= tx.0.year <= 9998,
        0 <= k <= 12,
    ensures
        one_in_months(tx, kind, tx.0.year as int, k) == if tx.0.month <= k {
            weight(tx, kind)
        } else {
            0
        },
    decreases k,
{
    if k > 0 {
        lemma_one_in_months(tx, kind, k - 1);
        lemma_month_window_membership(tx.0, k);
    }
}

/// The twelve month windows of a year count every transaction of that year once: added
/// up over the months, the monthly counts give the number of transactions and the monthly
/// credit and debit totals give the year's totals (for the years the store writes with
/// four digits, before the last one).
pub proof fn law_months_add_up_to_the_year(
    txs: Seq<(UtcDateTime, Seq<char>, int)>,
    kind: Option<Seq<char>>,
    year: int,
)
    requires
        0 <= year <= 9998,
        forall|i: int| 0 <= i < txs.len() ==> (#[trigger] txs[i]).0.wf() && txs[i].0.year == year,
    ensures
        months_total(txs, kind, year, 12) == grand_total(txs, kind),
        kind is None ==> grand_total(txs, kind) == txs.len(),
    decreases txs.len(),
{
    if txs.len() == 0 {
        lemma_months_total_empty(txs, kind, year, 12);
    } else {
        let init = txs.drop_last();
        assert forall|i: int| 0 <= i < init.len() implies (#[trigger] init[i]).0.wf() && init[i].0.year == year by {
            assert(init[i] == txs[i]);
        }
        law_months_add_up_to_the_year(init, kind, year);
        lemma_months_total_step(txs, kind, year, 12);
        assert(txs.last() == txs[txs.len() - 1]);
        lemma_one_in_months(txs.last(), kind, 12);
    }
}

/// The limit of a listing: 50 unless given.
pub open spec fn limit_or_default(limit: Option<i64>) -> i64 {
    match limit {
        Some(l) => l,
        None => 50,
    }
}

/// The offset of a listing: 0 unless given.
pub open spec fn offset_or_default(offset: Option<i64>) -> i64 {
    match offset {
        Some(o) => o,
        None => 0,
    }
}

/// The statement that lists a family's transactions under the given filters, newest
/// first.
pub open spec fn list_transactions_text(filters: TransactionFilters) -> Seq<char> {
    "SELECT * FROM transactions WHERE family_id = ? AND is_deleted = 0"@ + clause_if(
        filters.date_from is Some,
        " AND occurred_at >= ?"@,
    ) + clause_if(filters.date_to is Some, " AND occurred_at <= ?"@) + clause_if(
        filters.wallet_id is Some,
        " AND wallet_id = ?"@,
    ) + clause_if(filters.transaction_type is Some, " AND type = ?"@) + clause_if(
        filters.source_type is Some,
        " AND source_type = ?"@,
    ) + " ORDER BY occurred_at DESC"@ + " LIMIT "@ + decimal(
        limit_or_default(filters.limit) as int,
    ) + " OFFSET "@ + decimal(offset_or_default(filters.offset) as int)
}

/// The arguments of that statement, in the order of its `?`s.
pub open spec fn list_transactions_args_view(family_id: i64, filters: TransactionFilters) -> Seq<
    SqlArgView,
> {
    seq![SqlArgView::Int(family_id)] + opt_text_arg(filters.date_from) + opt_text_arg(
        filters.date_to,
    ) + opt_int_arg(filters.wallet_id) + opt_text_arg(filters.transaction_type) + opt_text_arg(
        filters.source_type,
    )
}

/// A statement and its arguments.
#[derive(Debug)]
pub struct Query {
    pub sql: String,
    pub args: Vec<SqlArg>,
}

/// Lists a family's transactions, newest first, keeping those within the date range, of
/// the wallet, type and source given; 50 at a time unless a limit is given.
pub fn list_transactions(family_id: i64, filters: &TransactionFilters) -> (q: Query)
    ensures
        q.sql@ == list_transactions_text(*filters),
        args_view(q.args@) == list_transactions_args_view(family_id, *filters),
{
    let mut sql = "SELECT * FROM transactions WHERE family_id = ? AND is_deleted = 0".to_owned();
    if filters.date_from.is_some() {
        append_text(&mut sql, " AND occurred_at >= ?");
    }
    if filters.date_to.is_some() {
        append_text(&mut sql, " AND occurred_at <= ?");
    }
    if filters.wallet_id.is_some() {
        append_text(&mut sql, " AND wallet_id = ?");
    }
    if filters.transaction_type.is_some() {
        append_text(&mut sql, " AND type = ?");
    }
    if filters.source_type.is_some() {
        append_text(&mut sql, " AND source_type = ?");
    }
    append_text(&mut sql, " ORDER BY occurred_at DESC");
    append_text(&mut sql, " LIMIT ");
    append_text(&mut sql, decimal_of(filters.limit.unwrap_or(50)).as_str());
    append_text(&mut sql, " OFFSET ");
    append_text(&mut sql, decimal_of(filters.offset.unwrap_or(0)).as_str());
    assert(sql@ =~= list_transactions_text(*filters));
    let mut args: Vec<SqlArg> = Vec::new();
    args.push(SqlArg::Int(family_id));
    push_opt_text(&mut args, &filters.date_from);
    push_opt_text(&mut args, &filters.date_to);
    push_opt_int(&mut args, filters.wallet_id);
    push_opt_text(&mut args, &filters.transaction_type);
    push_opt_text(&mut args, &filters.source_type);
    assert(args_view(args@) =~= list_transactions_args_view(family_id, *filters));
    Query { sql, args }
}

} // verus!
