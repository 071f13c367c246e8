//! Wallets: creation with an optional opening balance, renaming and archiving.
use vstd::prelude::*;
use crate::error::{AppError, fails_validation, fails_with, internal_code};
use crate::models::params::CreateWalletParams;
use crate::models::transaction::{NewTransaction, signed_amount, lemma_type_names_distinct};
use crate::models::wallet::Wallet;
use crate::services::store::{SqlArg, SqlArgView, args_view};
use crate::services::transaction_service::Query;
use crate::text::{contains_text, has_substring, name_len_ok, trimmed, trimmed_name};

verus! {

/// Checks a wallet name: trimmed, it must be 1 to 50 characters long. Gives the trimmed name.
pub fn check_wallet_name(name: &str) -> (r: Result<&str, AppError>)
    ensures
        name_len_ok(name@) ==> (r matches Ok(t) && t@ == trimmed(name@)),
        !name_len_ok(name@) ==> fails_validation(r, "Wallet name must be 1-50 characters"@),
{
    match trimmed_name(name) {
        Some(t) => Ok(t),
        None => Err(AppError::validation("Wallet name must be 1-50 characters")),
    }
}

/// The values of a new wallet that the store inserts, with a zero balance.
#[derive(Debug)]
pub struct NewWallet {
    pub family_id: i64,
    pub name: String,
    pub wallet_type: String,
    /// The opening balance, when one was given and is positive.
    pub initial_balance_cents: Option<i64>,
    /// The status a new wallet starts in (`active`).
    pub status: String,
    /// The currency of the wallet (`TWD`).
    pub currency: String,
    /// The warning threshold a new wallet starts with (none: 0).
    pub warning_threshold_cents: i64,
}

/// The opening balance a wallet is credited with: the one given, when it is positive.
pub open spec fn opening_balance(initial: Option<i64>) -> Option<i64> {
    match initial {
        Some(i) => if i > 0 {
            Some(i)
        } else {
            None
        },
        None => None,
    }
}

/// Creates a wallet named by the trimmed name.
pub fn create_wallet(params: &CreateWalletParams) -> (r: Result<NewWallet, AppError>)
    ensures
        !name_len_ok(params.name@) ==> fails_validation(
            r,
            "Wallet name must be 1-50 characters"@,
        ),
        name_len_ok(params.name@) ==> (r matches Ok(w) && {
            &&& w.family_id == params.family_id
            &&& w.name@ == trimmed(params.name@)
            &&& w.wallet_type@ == params.wallet_type@
            &&& w.initial_balance_cents == opening_balance(params.initial_balance_cents)
            &&& w.status@ == "active"@
            &&& w.currency@ == "TWD"@
            &&& w.warning_threshold_cents == 0
        }),
{
    let name = check_wallet_name(params.name.as_str())?;
    let initial_balance_cents = match params.initial_balance_cents {
        Some(i) => if i > 0 {
            Some(i)
        } else {
            None
        },
        None => None,
    };
    Ok(NewWallet {
        family_id: params.family_id,
        name: name.to_owned(),
        wallet_type: params.wallet_type.clone(),
        initial_balance_cents,
        status: "active".to_owned(),
        currency: "TWD".to_owned(),
        warning_threshold_cents: 0,
    })
}

/// The manual credit that records a new wallet's opening balance.
pub fn opening_credit(family_id: i64, wallet_id: i64, amount_cents: i64) -> (t: NewTransaction)
    ensures
        t.family_id == family_id,
        t.wallet_id == wallet_id,
        t.type_@ == "credit"@,
        t.amount_cents == amount_cents,
        t.source_type@ == "manual"@,
        t.source_id is None,
        t.category is None,
        t.notes is None,
        signed_amount(t.type_@, t.amount_cents as int) == amount_cents,
{
    proof {
        lemma_type_names_distinct();
    }
    NewTransaction {
        family_id,
        wallet_id,
        type_: "credit".to_owned(),
        amount_cents,
        source_type: "manual".to_owned(),
        source_id: None,
        category: None,
        notes: None,
    }
}

/// The error for a failed wallet insert, from the store's message: a clash of names
/// (a `UNIQUE constraint failed` message) is `WALLET_NAME_EXISTS`; anything else is an
/// internal error carrying the message.
pub fn wallet_insert_error(db_message: &str) -> (e: AppError)
    ensures
        has_substring(db_message@, "UNIQUE constraint failed"@) ==> e.is(
            "WALLET_NAME_EXISTS"@,
            "A wallet with this name already exists"@,
        ),
        !has_substring(db_message@, "UNIQUE constraint failed"@) ==> e.is(
            internal_code(),
            db_message@,
        ),
{
    if contains_text(db_message, "UNIQUE constraint failed") {
        AppError::new("WALLET_NAME_EXISTS", "A wallet with this name already exists")
    } else {
        AppError::internal(db_message)
    }
}

/// Renames a wallet: the new name is checked as on creation and trimmed.
pub fn update_wallet(name: &str) -> (r: Result<&str, AppError>)
    ensures
        name_len_ok(name@) ==> (r matches Ok(t) && t@ == trimmed(name@)),
        !name_len_ok(name@) ==> fails_validation(r, "Wallet name must be 1-50 characters"@),
{
    check_wallet_name(name)
}

/// Archives a wallet; one already archived is refused with `WALLET_ARCHIVED`. Gives the
/// wallet's next version, at which the store writes it archived.
pub fn archive_wallet(wallet: &Wallet) -> (r: Result<i64, AppError>)
    requires
        wallet.sync_version < i64::MAX,
    ensures
        wallet.status@ == "archived"@ ==> fails_with(
            r,
            "WALLET_ARCHIVED"@,
            "Wallet is already archived"@,
        ),
        wallet.status@ != "archived"@ ==> r == Ok::<i64, AppError>((wallet.sync_version + 1) as i64),
{
    if crate::text::text_eq(wallet.status.as_str(), "archived") {
        Err(AppError::new("WALLET_ARCHIVED", "Wallet is already archived"))
    } else {
        Ok(wallet.sync_version + 1)
    }
}

/// The statement that renames a live wallet and sets its warning threshold, at its next
/// version.
pub fn wallet_update_query(id: i64, name: &str, warning_threshold_cents: i64) -> (q: Query)
    ensures
        q.sql@ == "UPDATE wallets SET name = ?, warning_threshold_cents = ?, sync_version = sync_version + 1, updated_at = datetime('now') WHERE id = ? AND is_deleted = 0"@,
        args_view(q.args@) == seq![
            SqlArgView::Text(name@),
            SqlArgView::Int(warning_threshold_cents),
            SqlArgView::Int(id),
        ],
{
    let mut args: Vec<SqlArg> = Vec::new();
    args.push(SqlArg::Text(name.to_owned()));
    args.push(SqlArg::Int(warning_threshold_cents));
    args.push(SqlArg::Int(id));
    assert(args_view(args@) =~= seq![
        SqlArgView::Text(name@),
        SqlArgView::Int(warning_threshold_cents),
        SqlArgView::Int(id),
    ]);
    Query {
        sql: "UPDATE wallets SET name = ?, warning_threshold_cents = ?, sync_version = sync_version + 1, updated_at = datetime('now') WHERE id = ? AND is_deleted = 0".to_owned(),
        args,
    }
}

} // verus!
