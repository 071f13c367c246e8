//! Spending requests: a child drafts a request, submits it, and a giver approves
//! (debiting the wallet) or rejects it; drafts and pending requests can be cancelled.
//!
//! Each operation here decides, from the stored request (and the wallet balance where it
//! matters), whether the operation is allowed and what the store must write.
use vstd::prelude::*;
use crate::error::{AppError, fails_with, fails_validation, fails_not_found};
use crate::models::params::{CreateRequestParams, UpdateRequestParams};
use crate::models::request::{Request, RequestStatus, lemma_status_names_distinct};
use crate::models::transaction::{NewTransaction, signed_amount, lemma_type_names_distinct};
use crate::payload::{PayloadField, json_object, json_object_text, fields_view, int_field, text_field, PayloadValueView};
use crate::services::store::{SqlArg, SqlArgView, args_view};
use crate::services::transaction_service::Query;
use crate::sync::merge::{MergeAction, versioned_action};
use crate::models::wallet::WalletState;
use crate::text::{copy_opt_text, decimal, decimal_of, trim, trimmed};
use crate::time::{UtcDateTime, format_sql_datetime, sql_datetime_text};

verus! {

/// What can be done to a request.
#[derive(Debug, Clone, Copy, PartialEq, Eq)]
pub enum RequestAction {
    Edit,
    Submit,
    Approve,
    Reject,
    Cancel,
}

/// The status a request in `status` has after `action`, or `None` when the action is
/// refused in that status.
pub open spec fn next_status(status: Seq<char>, action: RequestAction) -> Option<RequestStatus> {
    let s = RequestStatus::named(status);
    match action {
        RequestAction::Edit => if s == Some(RequestStatus::Draft) {
            Some(RequestStatus::Draft)
        } else {
            None
        },
        RequestAction::Submit => if s == Some(RequestStatus::Draft) {
            Some(RequestStatus::Pending)
        } else {
            None
        },
        RequestAction::Approve => if s == Some(RequestStatus::Pending) {
            Some(RequestStatus::Approved)
        } else {
            None
        },
        RequestAction::Reject => if s == Some(RequestStatus::Pending) {
            Some(RequestStatus::Rejected)
        } else {
            None
        },
        RequestAction::Cancel => if s == Some(RequestStatus::Draft) || s == Some(
            RequestStatus::Pending,
        ) {
            Some(RequestStatus::Cancelled)
        } else {
            None
        },
    }
}

/// Whether a request in `status` has been approved or rejected.
pub open spec fn is_decided(status: Seq<char>) -> bool {
    status == "approved"@ || status == "rejected"@
}

/// The code of the error for `action` refused in `status`.
pub open spec fn refusal_code(status: Seq<char>, action: RequestAction) -> Seq<char> {
    if (action == RequestAction::Approve || action == RequestAction::Reject) && is_decided(status) {
        "REQUEST_ALREADY_DECIDED"@
    } else {
        "REQUEST_INVALID_STATUS"@
    }
}

/// The message of the error for `action` refused in `status`.
pub open spec fn refusal_message(status: Seq<char>, action: RequestAction) -> Seq<char> {
    if (action == RequestAction::Approve || action == RequestAction::Reject) && is_decided(status) {
        "This request has already been decided"@
    } else {
        match action {
            RequestAction::Edit => "Only draft requests can be edited"@,
            RequestAction::Submit => "Only draft requests can be submitted"@,
            RequestAction::Approve => "Only pending requests can be approved"@,
            RequestAction::Reject => "Only pending requests can be rejected"@,
            RequestAction::Cancel => "Only draft or pending requests can be cancelled"@,
        }
    }
}

/// Whether `r` is the error for `action` refused in `status`.
pub open spec fn refused<T>(r: Result<T, AppError>, status: Seq<char>, action: RequestAction) -> bool {
    fails_with(r, refusal_code(status, action), refusal_message(status, action))
}

/// Whether an optional amount is given and not positive.
pub open spec fn non_positive(amount: Option<i64>) -> bool {
    match amount {
        Some(a) => a <= 0,
        None => false,
    }
}

/// Whether `r` is `Ok(s)` for the status `action` leads to, or the refusal error when the
/// action is not allowed in `status`.
pub open spec fn transition_result(
    status: Seq<char>,
    action: RequestAction,
    r: Result<RequestStatus, AppError>,
) -> bool {
    match next_status(status, action) {
        Some(s) => r == Ok::<RequestStatus, AppError>(s),
        None => refused(r, status, action),
    }
}

/// Checks that `action` is allowed for the request and gives the status it leads to.
pub fn check_transition(request: &Request, action: RequestAction) -> (r: Result<
    RequestStatus,
    AppError,
>)
    ensures
        transition_result(request.status@, action, r),
{
    proof {
        lemma_status_names_distinct();
    }
    let status = RequestStatus::from_name(request.status.as_str());
    let next = match action {
        RequestAction::Edit => match status {
            Some(RequestStatus::Draft) => Some(RequestStatus::Draft),
            _ => None,
        },
        RequestAction::Submit => match status {
            Some(RequestStatus::Draft) => Some(RequestStatus::Pending),
            _ => None,
        },
        RequestAction::Approve => match status {
            Some(RequestStatus::Pending) => Some(RequestStatus::Approved),
            _ => None,
        },
        RequestAction::Reject => match status {
            Some(RequestStatus::Pending) => Some(RequestStatus::Rejected),
            _ => None,
        },
        RequestAction::Cancel => match status {
            Some(RequestStatus::Draft) => Some(RequestStatus::Cancelled),
            Some(RequestStatus::Pending) => Some(RequestStatus::Cancelled),
            _ => None,
        },
    };
    match next {
        Some(s) => Ok(s),
        None => {
            let decided = match status {
                Some(RequestStatus::Approved) => true,
                Some(RequestStatus::Rejected) => true,
                _ => false,
            };
            let is_decision = match action {
                RequestAction::Approve => true,
                RequestAction::Reject => true,
                _ => false,
            };
            if is_decision && decided {
                Err(AppError::new("REQUEST_ALREADY_DECIDED", "This request has already been decided"))
            } else {
                let message = match action {
                    RequestAction::Edit => "Only draft requests can be edited",
                    RequestAction::Submit => "Only draft requests can be submitted",
                    RequestAction::Approve => "Only pending requests can be approved",
                    RequestAction::Reject => "Only pending requests can be rejected",
                    RequestAction::Cancel => "Only draft or pending requests can be cancelled",
                };
                Err(AppError::new("REQUEST_INVALID_STATUS", message))
            }
        },
    }
}

/// The request that was looked up, or `REQUEST_NOT_FOUND`.
pub fn get_request(found: Option<Request>) -> (r: Result<Request, AppError>)
    ensures
        found matches Some(q) ==> r == Ok::<Request, AppError>(q),
        found is None ==> fails_not_found(r, "request"@),
{
    match found {
        Some(q) => Ok(q),
        None => Err(AppError::not_found("request")),
    }
}

/// Checks that a requested amount is positive.
pub fn check_amount(amount_cents: i64) -> (r: Result<(), AppError>)
    ensures
        r is Ok <==> amount_cents > 0,
        r matches Err(e) ==> e.is_validation("Amount must be positive"@),
{
    if amount_cents <= 0 {
        Err(AppError::validation("Amount must be positive"))
    } else {
        Ok(())
    }
}

/// The values of a new request that the store inserts.
#[derive(Debug, Clone)]
pub struct NewRequest {
    pub family_id: i64,
    pub requester_member_id: i64,
    pub wallet_id: i64,
    pub amount_cents: i64,
    pub category: Option<String>,
    pub notes: Option<String>,
    pub status: String,
}

/// Creates a draft request. `wallet_usable` says whether the wallet exists in the
/// request's family, is not deleted and is active.
pub fn create_request(params: &CreateRequestParams, wallet_usable: bool) -> (r: Result<
    NewRequest,
    AppError,
>)
    ensures
        params.amount_cents <= 0 ==> fails_validation(r, "Amount must be positive"@),
        params.amount_cents > 0 && !wallet_usable ==> fails_not_found(r, "wallet"@),
        params.amount_cents > 0 && wallet_usable ==> (r matches Ok(n) && {
            &&& n.family_id == params.family_id
            &&& n.requester_member_id == params.requester_member_id
            &&& n.wallet_id == params.wallet_id
            &&& n.amount_cents == params.amount_cents
            &&& n.category == params.category
            &&& n.notes == params.notes
            &&& n.status@ == RequestStatus::Draft.name()
        }),
{
    check_amount(params.amount_cents)?;
    if !wallet_usable {
        return Err(AppError::not_found("wallet"));
    }
    Ok(NewRequest {
        family_id: params.family_id,
        requester_member_id: params.requester_member_id,
        wallet_id: params.wallet_id,
        amount_cents: params.amount_cents,
        category: copy_opt_text(&params.category),
        notes: copy_opt_text(&params.notes),
        status: RequestStatus::Draft.to_name(),
    })
}

/// The fields of a draft request after an edit.
#[derive(Debug, Clone)]
pub struct RequestEdit {
    pub amount_cents: i64,
    pub category: Option<String>,
    pub notes: Option<String>,
}

/// The value an edit gives a field: the new value where one is given, else the old one.
pub open spec fn edited<T>(new: Option<T>, old: T) -> T {
    match new {
        Some(v) => v,
        None => old,
    }
}

/// The value an edit gives an optional field: the new value where one is given, else
/// the old one.
pub open spec fn edited_opt<T>(new: Option<T>, old: Option<T>) -> Option<T> {
    match new {
        Some(v) => Some(v),
        None => old,
    }
}

/// Edits a draft request: only drafts may be edited, and a new amount must be positive.
/// Fields left out keep their values.
pub fn update_request(request: &Request, params: &UpdateRequestParams) -> (r: Result<
    RequestEdit,
    AppError,
>)
    ensures
        next_status(request.status@, RequestAction::Edit) is None ==> refused(r, request.status@, RequestAction::Edit),
        next_status(request.status@, RequestAction::Edit) is Some && non_positive(params.amount_cents) ==> fails_validation(r, "Amount must be positive"@),
        next_status(request.status@, RequestAction::Edit) is Some && !non_positive(params.amount_cents) ==> (r matches Ok(ed) && {
            &&& ed.amount_cents == edited(params.amount_cents, request.amount_cents)
            &&& ed.category == edited_opt(params.category, request.category)
            &&& ed.notes == edited_opt(params.notes, request.notes)
        }),
{
    check_transition(request, RequestAction::Edit)?;
    if let Some(a) = params.amount_cents {
        check_amount(a)?;
    }
    let amount_cents = match params.amount_cents {
        Some(a) => a,
        None => request.amount_cents,
    };
    let category = match &params.category {
        Some(c) => Some(c.clone()),
        None => copy_opt_text(&request.category),
    };
    let notes = match &params.notes {
        Some(n) => Some(n.clone()),
        None => copy_opt_text(&request.notes),
    };
    Ok(RequestEdit { amount_cents, category, notes })
}

/// What the store writes when a request changes status: the new status and the request's
/// next version.
#[derive(Debug, Clone, Copy, PartialEq, Eq)]
pub struct StatusChange {
    pub status: RequestStatus,
    pub sync_version: i64,
}

/// Whether `r` is the status change `action` makes to a request in `status` at version
/// `version` (the version goes up by one), or the refusal when the action is not allowed.
pub open spec fn change_result(
    status: Seq<char>,
    version: i64,
    action: RequestAction,
    r: Result<StatusChange, AppError>,
) -> bool {
    match next_status(status, action) {
        Some(s) => r == Ok::<StatusChange, AppError>(StatusChange { status: s, sync_version: (version + 1) as i64 }),
        None => refused(r, status, action),
    }
}

/// A status change writes the request one version above the one it read, so a giver
/// still holding the old copy takes the new one, and from then on refuses the old one.
pub proof fn law_status_changes_win_the_merge(
    status: Seq<char>,
    version: i64,
    action: RequestAction,
    c: StatusChange,
)
    requires
        version < i64::MAX,
        change_result(status, version, action, Ok(c)),
    ensures
        c.sync_version == version + 1,
        versioned_action(c.sync_version, Some(version)) == MergeAction::Upsert,
        versioned_action(version, Some(c.sync_version)) == MergeAction::Reject,
{
}

/// Applies a status-changing action, bumping the version.
fn change_status(request: &Request, action: RequestAction) -> (r: Result<StatusChange, AppError>)
    requires
        request.sync_version < i64::MAX,
    ensures
        change_result(request.status@, request.sync_version, action, r),
{
    match check_transition(request, action) {
        Ok(s) => Ok(StatusChange { status: s, sync_version: request.sync_version + 1 }),
        Err(e) => Err(e),
    }
}

/// Submits a draft for a decision: the request becomes pending, at its next version.
pub fn submit_request(request: &Request) -> (r: Result<StatusChange, AppError>)
    requires
        request.sync_version < i64::MAX,
    ensures
        change_result(request.status@, request.sync_version, RequestAction::Submit, r),
{
    change_status(request, RequestAction::Submit)
}

/// Cancels a draft or pending request, at its next version.
pub fn cancel_request(request: &Request) -> (r: Result<StatusChange, AppError>)
    requires
        request.sync_version < i64::MAX,
    ensures
        change_result(request.status@, request.sync_version, RequestAction::Cancel, r),
{
    change_status(request, RequestAction::Cancel)
}

/// What the store writes when a request is approved.
#[derive(Debug)]
pub struct Approval {
    /// The request's new status (approved).
    pub status: RequestStatus,
    /// The request's next version.
    pub request_sync_version: i64,
    /// When it was decided, as the store keeps times.
    pub decision_at: String,
    /// The wallet's balance after the debit.
    pub new_balance: i64,
    /// The wallet's next version.
    pub wallet_sync_version: i64,
    /// The family of the audit log entry.
    pub audit_family_id: i64,
    /// The debit transaction to record.
    pub debit: NewTransaction,
    /// Who decided.
    pub decision_by_member_id: i64,
    /// The payload of the `request_approved` notification.
    pub notification_payload: String,
    /// The `resource_id` of the audit log entry.
    pub audit_resource_id: String,
    /// The metadata of the audit log entry.
    pub audit_metadata: String,
}

/// The entries of the `request_approved` notification payload.
pub open spec fn approval_payload_fields(request: Request) -> Seq<(Seq<char>, PayloadValueView)> {
    seq![
        ("request_id"@, PayloadValueView::Int(request.id)),
        ("amount_cents"@, PayloadValueView::Int(request.amount_cents)),
        ("wallet_id"@, PayloadValueView::Int(request.wallet_id)),
    ]
}

/// The entries of the audit metadata of an approval.
pub open spec fn approval_audit_fields(request: Request, approver: i64) -> Seq<(Seq<char>, PayloadValueView)> {
    seq![
        ("request_id"@, PayloadValueView::Int(request.id)),
        ("amount_cents"@, PayloadValueView::Int(request.amount_cents)),
        ("approver_member_id"@, PayloadValueView::Int(approver)),
    ]
}

/// Whether `t` is the debit that approving `request` records.
pub open spec fn is_request_debit(t: NewTransaction, request: Request) -> bool {
    &&& t.family_id == request.family_id
    &&& t.wallet_id == request.wallet_id
    &&& t.type_@ == "debit"@
    &&& t.amount_cents == request.amount_cents
    &&& t.source_type@ == "request"@
    &&& t.source_id == Some(request.id)
    &&& t.category == request.category
    &&& t.notes is None
}

/// Approves a pending request, given the balance of its wallet: the wallet is debited by
/// the requested amount, which it must cover.
pub fn approve_request(
    request: &Request,
    wallet: WalletState,
    approver_member_id: i64,
    now: &UtcDateTime,
) -> (r: Result<Approval, AppError>)
    requires
        now.wf(),
        request.sync_version < i64::MAX,
        wallet.sync_version < i64::MAX,
        wallet.balance_cents - request.amount_cents <= i64::MAX,
    ensures
        next_status(request.status@, RequestAction::Approve) is None ==> refused(r, request.status@, RequestAction::Approve),
        next_status(request.status@, RequestAction::Approve) is Some && wallet.balance_cents
            < request.amount_cents ==> fails_with(r, "INSUFFICIENT_BALANCE"@, "Wallet has insufficient balance"@),
        next_status(request.status@, RequestAction::Approve) is Some && wallet.balance_cents
            >= request.amount_cents ==> (r matches Ok(a) && {
            &&& a.status == RequestStatus::Approved
            &&& Some(a.status) == next_status(request.status@, RequestAction::Approve)
            &&& a.request_sync_version == request.sync_version + 1
            &&& a.decision_at@ == sql_datetime_text(*now)
            &&& a.new_balance == wallet.balance_cents - request.amount_cents
            &&& a.wallet_sync_version == wallet.sync_version + 1
            &&& is_request_debit(a.debit, *request)
            &&& a.new_balance == wallet.balance_cents + signed_amount(a.debit.type_@, a.debit.amount_cents as int)
            &&& a.decision_by_member_id == approver_member_id
            &&& a.notification_payload@ == json_object_text(approval_payload_fields(*request))
            &&& a.audit_family_id == request.family_id
            &&& a.audit_resource_id@ == decimal(request.id as int)
            &&& a.audit_metadata@ == json_object_text(approval_audit_fields(*request, approver_member_id))
        }),
        r matches Ok(a) ==> a.new_balance >= 0,
{
    let status = check_transition(request, RequestAction::Approve)?;
    proof {
        lemma_type_names_distinct();
    }
    let wallet_balance = wallet.balance_cents;
    if wallet_balance < request.amount_cents {
        return Err(AppError::new("INSUFFICIENT_BALANCE", "Wallet has insufficient balance"));
    }
    let debit = NewTransaction {
        family_id: request.family_id,
        wallet_id: request.wallet_id,
        type_: "debit".to_owned(),
        amount_cents: request.amount_cents,
        source_type: "request".to_owned(),
        source_id: Some(request.id),
        category: copy_opt_text(&request.category),
        notes: None,
    };
    let mut fields: Vec<PayloadField> = Vec::new();
    fields.push(int_field("request_id", request.id));
    fields.push(int_field("amount_cents", request.amount_cents));
    fields.push(int_field("wallet_id", request.wallet_id));
    assert(fields_view(fields@) =~= approval_payload_fields(*request));
    let notification_payload = json_object(&fields);
    let mut meta: Vec<PayloadField> = Vec::new();
    meta.push(int_field("request_id", request.id));
    meta.push(int_field("amount_cents", request.amount_cents));
    meta.push(int_field("approver_member_id", approver_member_id));
    assert(fields_view(meta@) =~= approval_audit_fields(*request, approver_member_id));
    let audit_metadata = json_object(&meta);
    Ok(Approval {
        status,
        request_sync_version: request.sync_version + 1,
        decision_at: format_sql_datetime(now),
        new_balance: wallet_balance - request.amount_cents,
        wallet_sync_version: wallet.sync_version + 1,
        audit_family_id: request.family_id,
        debit,
        decision_by_member_id: approver_member_id,
        notification_payload,
        audit_resource_id: decimal_of(request.id),
        audit_metadata,
    })
}

/// Checks that a rejection gives a reason, and gives it without surrounding white space.
pub fn rejection_reason(reason: &str) -> (r: Result<&str, AppError>)
    ensures
        trimmed(reason@).len() == 0 ==> fails_with(r, "REJECTION_REASON_REQUIRED"@, "A reason is required when rejecting a request"@),
        trimmed(reason@).len() > 0 ==> (r matches Ok(t) && t@ == trimmed(reason@)),
{
    let t = trim(reason);
    if t.is_empty() {
        Err(AppError::new("REJECTION_REASON_REQUIRED", "A reason is required when rejecting a request"))
    } else {
        Ok(t)
    }
}

/// What the store writes when a request is rejected.
#[derive(Debug)]
pub struct Rejection {
    /// The request's new status (rejected).
    pub status: RequestStatus,
    /// The request's next version.
    pub request_sync_version: i64,
    /// When it was decided, as the store keeps times.
    pub decision_at: String,
    /// The reason to store, without surrounding white space.
    pub reason: String,
    /// Who decided.
    pub decision_by_member_id: i64,
    /// The payload of the `request_rejected` notification.
    pub notification_payload: String,
}

/// The entries of the `request_rejected` notification payload.
pub open spec fn rejection_payload_fields(request: Request, reason: Seq<char>) -> Seq<(Seq<char>, PayloadValueView)> {
    seq![
        ("request_id"@, PayloadValueView::Int(request.id)),
        ("amount_cents"@, PayloadValueView::Int(request.amount_cents)),
        ("reason"@, PayloadValueView::Text(reason)),
    ]
}

/// Rejects a pending request with a reason; the reason is checked first.
pub fn reject_request(
    request: &Request,
    reason: &str,
    rejector_member_id: i64,
    now: &UtcDateTime,
) -> (r: Result<Rejection, AppError>)
    requires
        now.wf(),
        request.sync_version < i64::MAX,
    ensures
        trimmed(reason@).len() == 0 ==> fails_with(r, "REJECTION_REASON_REQUIRED"@, "A reason is required when rejecting a request"@),
        trimmed(reason@).len() > 0 && next_status(request.status@, RequestAction::Reject) is None
            ==> refused(r, request.status@, RequestAction::Reject),
        trimmed(reason@).len() > 0 && next_status(request.status@, RequestAction::Reject) is Some
            ==> (r matches Ok(j) && {
            &&& j.status == RequestStatus::Rejected
            &&& Some(j.status) == next_status(request.status@, RequestAction::Reject)
            &&& j.request_sync_version == request.sync_version + 1
            &&& j.decision_at@ == sql_datetime_text(*now)
            &&& j.reason@ == trimmed(reason@)
            &&& j.decision_by_member_id == rejector_member_id
            &&& j.notification_payload@ == json_object_text(
                rejection_payload_fields(*request, trimmed(reason@)),
            )
        }),
{
    let reason = rejection_reason(reason)?;
    let status = check_transition(request, RequestAction::Reject)?;
    let mut fields: Vec<PayloadField> = Vec::new();
    fields.push(int_field("request_id", request.id));
    fields.push(int_field("amount_cents", request.amount_cents));
    fields.push(text_field("reason", reason));
    assert(fields_view(fields@) =~= rejection_payload_fields(*request, reason@));
    let notification_payload = json_object(&fields);
    Ok(Rejection {
        status,
        request_sync_version: request.sync_version + 1,
        decision_at: format_sql_datetime(now),
        reason: reason.to_owned(),
        decision_by_member_id: rejector_member_id,
        notification_payload,
    })
}

/// How far along its life a request in a status is: 0 for a draft, 1 when pending, 2 once
/// approved, rejected or cancelled.
pub open spec fn stage(status: RequestStatus) -> int {
    match status {
        RequestStatus::Draft => 0,
        RequestStatus::Pending => 1,
        _ => 2,
    }
}

/// Approved, rejected and cancelled requests are final: no action is allowed on them.
pub proof fn law_closed_requests_are_final(status: Seq<char>, action: RequestAction)
    requires
        RequestStatus::named(status) == Some(RequestStatus::Approved) || RequestStatus::named(status)
            == Some(RequestStatus::Rejected) || RequestStatus::named(status) == Some(
            RequestStatus::Cancelled,
        ),
    ensures
        next_status(status, action) is None,
{
}

/// A request only moves forward: every allowed action other than an edit takes it to a
/// later stage, and an edit keeps it a draft. A status that is not one of the five names
/// allows nothing.
pub proof fn law_requests_move_forward(status: Seq<char>, action: RequestAction)
    ensures
        next_status(status, action) matches Some(t) ==> (RequestStatus::named(status) matches Some(
            s,
        ) && (if action == RequestAction::Edit {
            t == RequestStatus::Draft && s == RequestStatus::Draft
        } else {
            stage(t) > stage(s)
        })),
        RequestStatus::named(status) is None ==> next_status(status, action) is None,
{
}

/// Only a pending request can be decided, and a decided one answers a second decision
/// with `REQUEST_ALREADY_DECIDED`.
pub proof fn law_decisions_need_pending(status: Seq<char>)
    ensures
        next_status(status, RequestAction::Approve) is Some <==> RequestStatus::named(status)
            == Some(RequestStatus::Pending),
        next_status(status, RequestAction::Reject) is Some <==> RequestStatus::named(status)
            == Some(RequestStatus::Pending),
        is_decided(status) ==> refusal_code(status, RequestAction::Approve)
            == "REQUEST_ALREADY_DECIDED"@ && refusal_code(status, RequestAction::Reject)
            == "REQUEST_ALREADY_DECIDED"@,
{
    lemma_status_names_distinct();
}

/// The statement that lists a family's requests, newest first, of the given status if one
/// is given.
pub open spec fn list_requests_text(status_given: bool) -> Seq<char> {
    if status_given {
        "SELECT * FROM requests WHERE family_id = ? AND status = ? AND is_deleted = 0 ORDER BY created_at DESC"@
    } else {
        "SELECT * FROM requests WHERE family_id = ? AND is_deleted = 0 ORDER BY created_at DESC"@
    }
}

/// Lists a family's live requests, newest first, only those of `status` when it is given.
pub fn list_requests(family_id: i64, status: Option<&str>) -> (q: Query)
    ensures
        q.sql@ == list_requests_text(status is Some),
        args_view(q.args@) == match status {
            Some(t) => seq![SqlArgView::Int(family_id), SqlArgView::Text(t@)],
            None => seq![SqlArgView::Int(family_id)],
        },
{
    let mut args: Vec<SqlArg> = Vec::new();
    args.push(SqlArg::Int(family_id));
    match status {
        Some(t) => {
            args.push(SqlArg::Text(t.to_owned()));
            assert(args_view(args@) =~= seq![SqlArgView::Int(family_id), SqlArgView::Text(t@)]);
            Query {
                sql: "SELECT * FROM requests WHERE family_id = ? AND status = ? AND is_deleted = 0 ORDER BY created_at DESC".to_owned(),
                args,
            }
        },
        None => {
            assert(args_view(args@) =~= seq![SqlArgView::Int(family_id)]);
            Query {
                sql: "SELECT * FROM requests WHERE family_id = ? AND is_deleted = 0 ORDER BY created_at DESC".to_owned(),
                args,
            }
        },
    }
}

/// Whether a stored request is coherent: it has a rejection reason exactly when it is
/// rejected, and a decision exactly when it is approved or rejected.
pub open spec fn request_row_consistent(status: Seq<char>, reason: Option<Seq<char>>, decided: bool) -> bool {
    &&& (reason is Some <==> status == "rejected"@)
    &&& (decided <==> is_decided(status))
}

/// Every allowed action keeps a stored request coherent: approving records a decision
/// and leaves the reason as it was, rejecting records a decision and a reason, and the
/// other actions touch neither.
pub proof fn law_request_rows_stay_consistent(
    status: Seq<char>,
    reason: Option<Seq<char>>,
    decided: bool,
    action: RequestAction,
    rejection: Seq<char>,
)
    requires
        request_row_consistent(status, reason, decided),
        next_status(status, action) is Some,
    ensures
        action == RequestAction::Approve ==> request_row_consistent(
            next_status(status, action)->0.name(),
            reason,
            true,
        ),
        action == RequestAction::Reject ==> request_row_consistent(
            next_status(status, action)->0.name(),
            Some(rejection),
            true,
        ),
        action != RequestAction::Approve && action != RequestAction::Reject ==> request_row_consistent(
            next_status(status, action)->0.name(),
            reason,
            decided,
        ),
{
    lemma_status_names_distinct();
}

/// A stored request as far as its life goes: its status, its rejection reason and whether
/// a decision was recorded.
pub open spec fn row_after(
    row: (RequestStatus, Option<Seq<char>>, bool),
    action: RequestAction,
    reason: Seq<char>,
) -> (RequestStatus, Option<Seq<char>>, bool) {
    match next_status(row.0.name(), action) {
        None => row,
        Some(t) => (
            t,
            if action == RequestAction::Reject {
                Some(reason)
            } else {
                row.1
            },
            row.2 || action == RequestAction::Approve || action == RequestAction::Reject,
        ),
    }
}

/// The rows a new request goes through under a sequence of actions (each with the reason
/// given, used by a rejection): it starts a draft without reason or decision; a refused
/// action leaves it as it was.
pub open spec fn request_history(
    steps: Seq<(RequestAction, Seq<char>)>,
) -> Seq<(RequestStatus, Option<Seq<char>>, bool)>
    decreases steps.len(),
{
    if steps.len() == 0 {
        seq![(RequestStatus::Draft, None, false)]
    } else {
        let before = request_history(steps.drop_last());
        before.push(row_after(before.last(), steps.last().0, steps.last().1))
    }
}

/// Over any sequence of actions on a new request: every row is coherent (a reason exactly
/// when rejected, a decision exactly when approved or rejected); the status never goes
/// back (draft, then pending, then approved, rejected or cancelled); and once approved,
/// rejected or cancelled the request never changes again.
pub proof fn law_request_histories(steps: Seq<(RequestAction, Seq<char>)>)
    ensures
        request_history(steps).len() == steps.len() + 1,
        forall|i: int|
            0 <= i < request_history(steps).len() ==> {
                let r = #[trigger] request_history(steps)[i];
                request_row_consistent(r.0.name(), r.1, r.2)
            },
        forall|i: int, j: int|
            0 <= i <= j < request_history(steps).len() ==> stage(
                #[trigger] request_history(steps)[i].0,
            ) <= stage(#[trigger] request_history(steps)[j].0),
        forall|i: int, j: int|
            0 <= i <= j < request_history(steps).len() && stage(#[trigger] request_history(steps)[i].0)
                == 2 ==> #[trigger] request_history(steps)[j] == request_history(steps)[i],
    decreases steps.len(),
{
    lemma_status_names_distinct();
    reveal_strlit("draft");
    let h = request_history(steps);
    if steps.len() > 0 {
        let init = steps.drop_last();
        law_request_histories(init);
        let before = request_history(init);
        let last = before.last();
        let (a, reason) = steps.last();
        let n = row_after(last, a, reason);
        assert(h == before.push(n));
        assert(request_row_consistent(last.0.name(), last.1, last.2));
        assert(RequestStatus::named(last.0.name()) == Some(last.0));
        law_requests_move_forward(last.0.name(), a);
        if next_status(last.0.name(), a) is Some {
            law_request_rows_stay_consistent(last.0.name(), last.1, last.2, a, reason);
            let t = next_status(last.0.name(), a)->0;
            assert(RequestStatus::named(t.name()) == Some(t));
        }
        if stage(last.0) == 2 {
            law_closed_requests_are_final(last.0.name(), a);
        }
        assert(stage(last.0) <= stage(n.0));
        assert(stage(last.0) == 2 ==> n == last);
        assert forall|i: int, j: int|
            0 <= i <= j < h.len() implies stage(#[trigger] h[i].0) <= stage(#[trigger] h[j].0) by {
            if j < h.len() - 1 {
                assert(h[i] == before[i] && h[j] == before[j]);
            } else if i < h.len() - 1 {
                assert(h[i] == before[i]);
                assert(stage(before[i].0) <= stage(before[before.len() - 1].0));
            }
        }
        assert forall|i: int, j: int|
            0 <= i <= j < h.len() && stage(#[trigger] h[i].0) == 2 implies #[trigger] h[j] == h[i] by {
            if j < h.len() - 1 {
                assert(h[i] == before[i] && h[j] == before[j]);
            } else if i < h.len() - 1 {
                assert(h[i] == before[i]);
                assert(before[before.len() - 1] == before[i]);
            }
        }
        assert forall|i: int| 0 <= i < h.len() implies {
            let r = #[trigger] h[i];
            request_row_consistent(r.0.name(), r.1, r.2)
        } by {
            if i < h.len() - 1 {
                assert(h[i] == before[i]);
            }
        }
    }
}

} // verus!
