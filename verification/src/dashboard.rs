//! The home screen: the profile, the family, its active wallets, recent transactions and
//! counts of requests and unread notifications.
use vstd::prelude::*;
use crate::error::{AppError, fails_with};
use crate::models::family::Family;
use crate::models::profile::Profile;
use crate::models::transaction::Transaction;
use crate::models::wallet::Wallet;
use crate::services::store::{SqlArg, SqlArgView, args_view};
use crate::services::transaction_service::Query;

verus! {

/// How many of the family's requests are pending, approved and rejected.
#[derive(Debug, Clone)]
pub struct RequestSummary {
    pub pending: i64,
    pub approved: i64,
    pub rejected: i64,
}

/// Everything the home screen shows.
#[derive(Debug, Clone)]
pub struct DashboardData {
    pub profile: Profile,
    pub family: Option<Family>,
    pub wallets: Vec<Wallet>,
    pub recent_transactions: Vec<Transaction>,
    pub request_summary: RequestSummary,
    pub pending_requests_count: i64,
    pub unread_notification_count: i64,
}

/// The device's profile, which the home screen needs; `NOT_SETUP` when there is none.
pub fn dashboard_profile(found: Option<Profile>) -> (r: Result<Profile, AppError>)
    ensures
        found matches Some(p) ==> r == Ok::<Profile, AppError>(p),
        found is None ==> fails_with(r, "NOT_SETUP"@, "Device is not set up"@),
{
    match found {
        Some(p) => Ok(p),
        None => Err(AppError::new("NOT_SETUP", "Device is not set up")),
    }
}

/// The family whose data the home screen shows: the family's id, or 0 without one.
pub fn dashboard_family_id(family: &Option<Family>) -> (id: i64)
    ensures
        family matches Some(f) ==> id == f.id,
        family is None ==> id == 0,
{
    match family {
        Some(f) => f.id,
        None => 0,
    }
}

/// Puts the home screen together from the device's profile and what the store holds for
/// its family: `NOT_SETUP` when there is no profile; the pending count is shown twice.
pub fn get_dashboard_data(
    profile: Option<Profile>,
    family: Option<Family>,
    wallets: Vec<Wallet>,
    recent_transactions: Vec<Transaction>,
    pending: i64,
    approved: i64,
    rejected: i64,
    unread_notification_count: i64,
) -> (r: Result<DashboardData, AppError>)
    ensures
        profile is None ==> fails_with(r, "NOT_SETUP"@, "Device is not set up"@),
        profile matches Some(p) ==> (r matches Ok(d) && {
            &&& d.profile == p
            &&& d.family == family
            &&& d.wallets == wallets
            &&& d.recent_transactions == recent_transactions
            &&& d.request_summary.pending == pending
            &&& d.request_summary.approved == approved
            &&& d.request_summary.rejected == rejected
            &&& d.pending_requests_count == pending
            &&& d.unread_notification_count == unread_notification_count
        }),
{
    let profile = dashboard_profile(profile)?;
    Ok(DashboardData {
        profile,
        family,
        wallets,
        recent_transactions,
        request_summary: RequestSummary { pending, approved, rejected },
        pending_requests_count: pending,
        unread_notification_count,
    })
}

/// The statement that lists the family's active wallets, oldest first.
pub fn dashboard_wallets_query(family_id: i64) -> (q: Query)
    ensures
        q.sql@ == "SELECT * FROM wallets WHERE family_id = ? AND is_deleted = 0 AND status = 'active' ORDER BY created_at ASC"@,
        args_view(q.args@) == seq![SqlArgView::Int(family_id)],
{
    let mut args: Vec<SqlArg> = Vec::new();
    args.push(SqlArg::Int(family_id));
    assert(args_view(args@) =~= seq![SqlArgView::Int(family_id)]);
    Query {
        sql: "SELECT * FROM wallets WHERE family_id = ? AND is_deleted = 0 AND status = 'active' ORDER BY created_at ASC".to_owned(),
        args,
    }
}

/// The statement that lists the family's five most recent transactions.
pub fn dashboard_recent_query(family_id: i64) -> (q: Query)
    ensures
        q.sql@ == "SELECT * FROM transactions WHERE family_id = ? AND is_deleted = 0 ORDER BY occurred_at DESC LIMIT 5"@,
        args_view(q.args@) == seq![SqlArgView::Int(family_id)],
{
    let mut args: Vec<SqlArg> = Vec::new();
    args.push(SqlArg::Int(family_id));
    assert(args_view(args@) =~= seq![SqlArgView::Int(family_id)]);
    Query {
        sql: "SELECT * FROM transactions WHERE family_id = ? AND is_deleted = 0 ORDER BY occurred_at DESC LIMIT 5".to_owned(),
        args,
    }
}

/// The statement that counts the family's live requests in a status.
pub fn request_count_query(family_id: i64, status: &str) -> (q: Query)
    ensures
        q.sql@ == "SELECT COUNT(*) FROM requests WHERE family_id = ? AND status = ? AND is_deleted = 0"@,
        args_view(q.args@) == seq![SqlArgView::Int(family_id), SqlArgView::Text(status@)],
{
    let mut args: Vec<SqlArg> = Vec::new();
    args.push(SqlArg::Int(family_id));
    args.push(SqlArg::Text(status.to_owned()));
    assert(args_view(args@) =~= seq![SqlArgView::Int(family_id), SqlArgView::Text(status@)]);
    Query {
        sql: "SELECT COUNT(*) FROM requests WHERE family_id = ? AND status = ? AND is_deleted = 0".to_owned(),
        args,
    }
}

} // verus!
