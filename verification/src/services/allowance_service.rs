//! Allowances: recurring credits into a wallet. This module validates allowances,
//! schedules their runs and works out what one disbursement writes.
use vstd::prelude::*;
use crate::error::{AppError, fails_validation, fails_not_found};
use crate::models::allowance::{Allowance, Frequency, lemma_frequency_names_distinct};
use crate::models::params::{CreateAllowanceParams, UpdateAllowanceParams};
use crate::models::wallet::WalletState;
use crate::sync::merge::{MergeAction, versioned_action};
use crate::services::store::{SqlArg, SqlArgView, args_view};
use crate::services::transaction_service::Query;
use crate::models::transaction::{NewTransaction, signed_amount, lemma_type_names_distinct};
use crate::payload::{PayloadField, PayloadValueView, fields_view, int_field, json_object, json_object_text};
use crate::text::{copy_opt_text, decimal, decimal_of, append_text};
use crate::time::{MIN_YEAR, MAX_YEAR, month_index, lemma_later_month_later_day, UtcDateTime, parse_sql_datetime_with_offset, floor_div, format_sql_datetime, month_length, now_utc, shift_seconds, can_shift_by, sql_datetime_text, days_in_month, is_valid_date};

verus! {

/// The number of seconds one step of `frequency` covers for `interval`, for the
/// frequencies that are a fixed number of days.
pub open spec fn step_seconds(frequency: Frequency, interval: int) -> int {
    match frequency {
        Frequency::Daily => 86400 * interval,
        Frequency::Custom => 86400 * interval,
        Frequency::Weekly => 604800 * interval,
        Frequency::Biweekly => 1209600 * interval,
        Frequency::Monthly => 0,
    }
}

/// The month number before normalising: the month of `from` plus the interval, the
/// interval taken as an `i32` (as `interval as i32` truncates it).
pub open spec fn raw_month(interval: int, from: UtcDateTime) -> int {
    from.month as int + (interval as i32) as int
}

/// The year a monthly step lands in.
pub open spec fn target_year(interval: int, from: UtcDateTime) -> int {
    from.year as int + (raw_month(interval, from) - 1) / 12
}

/// The month (1 to 12) a monthly step lands in.
pub open spec fn target_month(interval: int, from: UtcDateTime) -> int {
    (raw_month(interval, from) - 1) % 12 + 1
}

/// The day of month of a monthly step: the day of `from`, or the last day of the target
/// month where that is shorter.
pub open spec fn target_day(interval: int, from: UtcDateTime) -> int {
    let dim = days_in_month(target_year(interval, from), target_month(interval, from));
    if from.day as int <= dim {
        from.day as int
    } else {
        dim
    }
}

/// The time a monthly step leads to: the same time of day on the target year, month and
/// (clamped) day, when that date can be represented.
pub open spec fn monthly_target(interval: int, from: UtcDateTime) -> Option<UtcDateTime> {
    let y = target_year(interval, from);
    let m = target_month(interval, from);
    let d = target_day(interval, from);
    if is_valid_date(y, m, d) {
        Some(from.with_date(y, m, d))
    } else {
        None
    }
}

/// Whether computing the next run cannot overflow: the shift stays within chrono's range,
/// and for monthly steps the month number fits in an `i32`.
pub open spec fn next_run_defined(frequency: Seq<char>, interval: int, from: UtcDateTime) -> bool {
    match Frequency::named(frequency) {
        Some(Frequency::Monthly) => raw_month(interval, from) <= i32::MAX,
        Some(f) => from.can_shift(step_seconds(f, interval)),
        None => true,
    }
}

/// Whether `r` is the next run after `from` for `frequency` and `interval`.
pub open spec fn next_run_result(
    frequency: Seq<char>,
    interval: int,
    from: UtcDateTime,
    r: Result<UtcDateTime, AppError>,
) -> bool {
    match Frequency::named(frequency) {
        Some(Frequency::Monthly) => match monthly_target(interval, from) {
            Some(t) => r == Ok::<UtcDateTime, AppError>(t),
            None => fails_validation(r, "Invalid date calculation"@),
        },
        Some(f) => match r {
            Ok(t) => from.shifted_to(step_seconds(f, interval), t),
            Err(_) => false,
        },
        None => fails_validation(r, "Invalid frequency"@),
    }
}

/// Whether the next run can be computed without overflow (what `calculate_next_run`
/// requires).
pub fn next_run_is_defined(frequency: &str, interval: i64, from: &UtcDateTime) -> (r: bool)
    requires
        from.wf(),
    ensures
        r == next_run_defined(frequency@, interval as int, *from),
{
    proof {
        lemma_frequency_names_distinct();
    }
    match Frequency::from_name(frequency) {
        Some(Frequency::Monthly) => from.month as i64 + (interval as i32) as i64 <= i32::MAX as i64,
        Some(f) => {
            let per: i64 = match f {
                Frequency::Weekly => 604800,
                Frequency::Biweekly => 1209600,
                _ => 86400,
            };
            proof {
                assert(-1_209_600 * 0x8000_0000_0000_0000 <= per as int * interval as int <= 1_209_600 * 0x8000_0000_0000_0000) by (nonlinear_arith)
                    requires
                        0 < per <= 1_209_600,
                        -0x8000_0000_0000_0000 <= interval < 0x8000_0000_0000_0000,
                ;
            }
            let prod: i128 = per as i128 * interval as i128;
            let max: i128 = (i64::MAX / 1000) as i128;
            if prod > max || prod < -max {
                false
            } else {
                can_shift_by(from, prod as i64)
            }
        },
        None => true,
    }
}

/// The next run of an allowance paid every `interval` days (`daily`, `custom`), weeks
/// (`weekly`), two weeks (`biweekly`) or months (`monthly`) after `from`. A monthly step
/// keeps the day of month where the target month has it and uses the target month's
/// last day otherwise (Jan 31 -> Feb 28/29); it fails with "Invalid date calculation"
/// when the target year cannot be represented. Any other frequency fails with "Invalid
/// frequency".
pub fn calculate_next_run(frequency: &str, interval: i64, from: &UtcDateTime) -> (r: Result<
    UtcDateTime,
    AppError,
>)
    requires
        from.wf(),
        next_run_defined(frequency@, interval as int, *from),
    ensures
        next_run_result(frequency@, interval as int, *from, r),
        r matches Ok(t) ==> t.wf(),
{
    proof {
        lemma_frequency_names_distinct();
    }
    match Frequency::from_name(frequency) {
        Some(Frequency::Monthly) => {
            let month: i32 = from.month as i32 + interval as i32;
            let q = floor_div(month as i64 - 1, 12);
            let rem = month as i64 - 1 - 12 * q;
            proof {
                vstd::arithmetic::div_mod::lemma_fundamental_div_mod((month - 1) as int, 12);
                assert(-200_000_000 <= q <= 200_000_000);
                assert(rem == (month - 1) % 12);
            }
            let year = (from.year as i64 + q) as i32;
            let target_month = (rem + 1) as u32;
            let day = from.day;
            let days = month_length(year, target_month);
            let clamped = if day < days {
                day
            } else {
                days
            };
            if MIN_YEAR <= year && year <= MAX_YEAR {
                Ok(UtcDateTime { year, month: target_month, day: clamped, ..*from })
            } else {
                Err(AppError::validation("Invalid date calculation"))
            }
        },
        Some(f) => {
            let per: i64 = match f {
                Frequency::Weekly => 604800,
                Frequency::Biweekly => 1209600,
                _ => 86400,
            };
            proof {
                assert(-(i64::MAX / 1000) <= per * interval <= i64::MAX / 1000);
            }
            Ok(shift_seconds(from, per * interval))
        },
        None => Err(AppError::validation("Invalid frequency")),
    }
}


/// Checks that an allowance amount is positive.
pub fn check_amount(amount_cents: i64) -> (r: Result<(), AppError>)
    ensures
        r is Ok <==> amount_cents > 0,
        amount_cents <= 0 ==> fails_validation(r, "Amount must be greater than 0"@),
{
    if amount_cents <= 0 {
        Err(AppError::validation("Amount must be greater than 0"))
    } else {
        Ok(())
    }
}

/// Checks that a frequency is one of `daily`, `weekly`, `biweekly`, `monthly`, `custom`.
pub fn check_frequency(frequency: &str) -> (r: Result<(), AppError>)
    ensures
        r is Ok <==> Frequency::named(frequency@) is Some,
        Frequency::named(frequency@) is None ==> fails_validation(r, "Invalid frequency"@),
{
    match Frequency::from_name(frequency) {
        Some(_) => Ok(()),
        None => Err(AppError::validation("Invalid frequency")),
    }
}

/// Checks that an interval count is positive.
pub fn check_interval(interval: i64) -> (r: Result<(), AppError>)
    ensures
        r is Ok <==> interval > 0,
        interval <= 0 ==> fails_validation(r, "Interval count must be greater than 0"@),
{
    if interval <= 0 {
        Err(AppError::validation("Interval count must be greater than 0"))
    } else {
        Ok(())
    }
}

/// The interval an allowance is created with: the one given, else 1.
pub open spec fn effective_interval(interval: Option<i64>) -> i64 {
    match interval {
        Some(i) => i,
        None => 1,
    }
}

/// Whether the parameters of a new allowance pass validation.
pub open spec fn valid_new_allowance(params: CreateAllowanceParams) -> bool {
    &&& params.amount_cents > 0
    &&& Frequency::named(params.frequency@) is Some
    &&& effective_interval(params.interval_count) > 0
}

/// The values of a new allowance that the store inserts.
#[derive(Debug)]
pub struct NewAllowance {
    pub family_id: i64,
    pub giver_member_id: i64,
    pub receiver_member_id: i64,
    pub wallet_id: i64,
    pub amount_cents: i64,
    pub frequency: String,
    pub interval_count: i64,
    pub next_run_at: String,
    pub status: String,
    pub notes: Option<String>,
}

/// Whether `r` is what validating and scheduling a new allowance at time `now` gives:
/// the validation error of the first check that fails (amount, frequency, interval), the
/// scheduling error, or the values to insert with the first run one interval after `now`.
pub open spec fn plan_result(
    params: CreateAllowanceParams,
    now: UtcDateTime,
    r: Result<NewAllowance, AppError>,
) -> bool {
    &&& params.amount_cents <= 0 ==> fails_validation(r, "Amount must be greater than 0"@)
    &&& params.amount_cents > 0 && Frequency::named(params.frequency@) is None ==> fails_validation(
        r,
        "Invalid frequency"@,
    )
    &&& params.amount_cents > 0 && Frequency::named(params.frequency@) is Some
        && effective_interval(params.interval_count) <= 0 ==> fails_validation(
        r,
        "Interval count must be greater than 0"@,
    )
    &&& valid_new_allowance(params) ==> match r {
        Ok(n) => {
            &&& n.family_id == params.family_id
            &&& n.giver_member_id == params.giver_member_id
            &&& n.receiver_member_id == params.receiver_member_id
            &&& n.wallet_id == params.wallet_id
            &&& n.amount_cents == params.amount_cents
            &&& n.frequency@ == params.frequency@
            &&& n.interval_count == effective_interval(params.interval_count)
            &&& n.status@ == "active"@
            &&& n.notes == params.notes
            &&& exists|t: UtcDateTime|
                #![trigger sql_datetime_text(t)]
                next_run_result(params.frequency@, n.interval_count as int, now, Ok(t))
                    && n.next_run_at@ == sql_datetime_text(t)
        },
        Err(e) => next_run_result(
            params.frequency@,
            effective_interval(params.interval_count) as int,
            now,
            Err(e),
        ),
    }
}

/// Validates a new allowance (amount, then frequency, then interval, which defaults to
/// 1) and schedules its first run one interval after `now`.
pub fn plan_allowance(params: &CreateAllowanceParams, now: &UtcDateTime) -> (r: Result<
    NewAllowance,
    AppError,
>)
    requires
        now.wf(),
        valid_new_allowance(*params) ==> next_run_defined(
            params.frequency@,
            effective_interval(params.interval_count) as int,
            *now,
        ),
    ensures
        plan_result(*params, *now, r),

{
    check_amount(params.amount_cents)?;
    check_frequency(params.frequency.as_str())?;
    let interval_count = params.interval_count.unwrap_or(1);
    check_interval(interval_count)?;
    let next = calculate_next_run(params.frequency.as_str(), interval_count, now);
    match next {
        Ok(t) => {
            let next_run_at = format_sql_datetime(&t);
            Ok(NewAllowance {
                family_id: params.family_id,
                giver_member_id: params.giver_member_id,
                receiver_member_id: params.receiver_member_id,
                wallet_id: params.wallet_id,
                amount_cents: params.amount_cents,
                frequency: params.frequency.clone(),
                interval_count,
                next_run_at,
                status: "active".to_owned(),
                notes: copy_opt_text(&params.notes),
            })
        },
        Err(e) => Err(e),
    }
}

/// What creating an allowance at the time read from the clock gives: `None` exactly when
/// the allowance is valid and its first run from that time cannot be represented; else the
/// plan made at that time.
pub open spec fn create_outcome(
    params: CreateAllowanceParams,
    now: UtcDateTime,
    r: Option<Result<NewAllowance, AppError>>,
) -> bool {
    let blocked = valid_new_allowance(params) && !next_run_defined(
        params.frequency@,
        effective_interval(params.interval_count) as int,
        now,
    );
    match r {
        None => blocked,
        Some(x) => !blocked && plan_result(params, now, x),
    }
}

/// Validates a new allowance and schedules its first run from the current time, which it
/// returns beside the outcome. `None` when that run would lie outside the dates chrono can
/// represent.
pub fn create_allowance(params: &CreateAllowanceParams) -> (r: (UtcDateTime, Option<Result<NewAllowance, AppError>>))
    ensures
        r.0.wf(),
        create_outcome(*params, r.0, r.1),
        params.amount_cents <= 0 ==> (r.1 matches Some(x) && fails_validation(
            x,
            "Amount must be greater than 0"@,
        )),
        params.amount_cents > 0 && Frequency::named(params.frequency@) is None ==> (r.1 matches Some(
            x,
        ) && fails_validation(x, "Invalid frequency"@)),
        params.amount_cents > 0 && Frequency::named(params.frequency@) is Some
            && effective_interval(params.interval_count) <= 0 ==> (r.1 matches Some(x)
            && fails_validation(x, "Interval count must be greater than 0"@)),
        r.1 is None ==> valid_new_allowance(*params),
{
    let now = now_utc();
    let interval_count = params.interval_count.unwrap_or(1);
    let valid = params.amount_cents > 0 && Frequency::from_name(params.frequency.as_str()).is_some()
        && interval_count > 0;
    assert(valid == valid_new_allowance(*params));
    if valid && !next_run_is_defined(params.frequency.as_str(), interval_count, &now) {
        return (now, None);
    }
    (now, Some(plan_allowance(params, &now)))
}

/// The fields of an allowance after an edit.
#[derive(Debug)]
pub struct AllowanceEdit {
    /// The allowance's next version.
    pub sync_version: i64,
    pub amount_cents: i64,
    pub frequency: String,
    pub interval_count: i64,
    pub notes: Option<String>,
}

/// Whether an edit gives any field a new value.
pub open spec fn edit_changes_something(params: UpdateAllowanceParams) -> bool {
    params.amount_cents is Some || params.frequency is Some || params.interval_count is Some
        || params.notes is Some
}

/// Edits an active allowance. Only active allowances may be edited; a new amount or
/// interval must be positive and a new frequency known. `Ok(None)` when the edit gives no
/// field a new value (the allowance is left as it is); fields left out keep their values.
/// The next run is not rescheduled.
pub fn update_allowance(allowance: &Allowance, params: &UpdateAllowanceParams) -> (r: Result<
    Option<AllowanceEdit>,
    AppError,
>)
    requires
        allowance.sync_version < i64::MAX,
    ensures
        allowance.status@ != "active"@ ==> fails_validation(
            r,
            "Only active allowances can be updated"@,
        ),
        allowance.status@ == "active"@ && (params.amount_cents matches Some(a) && a <= 0)
            ==> fails_validation(r, "Amount must be greater than 0"@),
        allowance.status@ == "active"@ && !(params.amount_cents matches Some(a) && a <= 0) && (
        params.frequency matches Some(f) && Frequency::named(f@) is None) ==> fails_validation(
            r,
            "Invalid frequency"@,
        ),
        allowance.status@ == "active"@ && !(params.amount_cents matches Some(a) && a <= 0) && !(
        params.frequency matches Some(f) && Frequency::named(f@) is None) && (
        params.interval_count matches Some(i) && i <= 0) ==> fails_validation(
            r,
            "Interval count must be greater than 0"@,
        ),
        r matches Ok(o) ==> (o is Some <==> edit_changes_something(*params)),
        r matches Ok(Some(ed)) ==> {
            &&& ed.sync_version == allowance.sync_version + 1
            &&& ed.amount_cents == crate::services::request_service::edited(
                params.amount_cents,
                allowance.amount_cents,
            )
            &&& ed.frequency@ == crate::services::request_service::edited(
                crate::text::opt_view(params.frequency),
                allowance.frequency@,
            )
            &&& ed.interval_count == crate::services::request_service::edited(
                params.interval_count,
                allowance.interval_count,
            )
            &&& ed.notes == crate::services::request_service::edited_opt(params.notes, allowance.notes)
        },
        r is Err ==> allowance.status@ != "active"@ || (params.amount_cents matches Some(a) && a <= 0)
            || (params.frequency matches Some(f) && Frequency::named(f@) is None) || (
        params.interval_count matches Some(i) && i <= 0),
{
    if !crate::text::text_eq(allowance.status.as_str(), "active") {
        return Err(AppError::validation("Only active allowances can be updated"));
    }
    if let Some(a) = params.amount_cents {
        check_amount(a)?;
    }
    if let Some(f) = &params.frequency {
        check_frequency(f.as_str())?;
    }
    if let Some(i) = params.interval_count {
        check_interval(i)?;
    }
    if params.amount_cents.is_none() && params.frequency.is_none() && params.interval_count.is_none()
        && params.notes.is_none() {
        return Ok(None);
    }
    let amount_cents = match params.amount_cents {
        Some(a) => a,
        None => allowance.amount_cents,
    };
    let frequency = match &params.frequency {
        Some(f) => f.clone(),
        None => allowance.frequency.clone(),
    };
    let interval_count = match params.interval_count {
        Some(i) => i,
        None => allowance.interval_count,
    };
    let notes = match &params.notes {
        Some(n) => Some(n.clone()),
        None => copy_opt_text(&allowance.notes),
    };
    Ok(Some(AllowanceEdit { sync_version: allowance.sync_version + 1, amount_cents, frequency, interval_count, notes }))
}

/// What the store writes when an allowance is resumed.
#[derive(Debug)]
pub struct Resumption {
    /// Its next run, as the store keeps times.
    pub next_run_at: String,
    /// Its status from then on (`active`).
    pub status: String,
    /// Its next version.
    pub sync_version: i64,
}

/// Whether `r` is what resuming `allowance` at `now` writes: active again, at its next
/// version, with its next run one interval after `now`; or the scheduling error.
pub open spec fn resume_result(allowance: Allowance, now: UtcDateTime, r: Result<Resumption, AppError>) -> bool {
    match r {
        Ok(p) => {
            &&& p.status@ == "active"@
            &&& p.sync_version == allowance.sync_version + 1
            &&& exists|t: UtcDateTime|
                #![trigger sql_datetime_text(t)]
                next_run_result(allowance.frequency@, allowance.interval_count as int, now, Ok(t))
                    && p.next_run_at@ == sql_datetime_text(t)
        },
        Err(e) => next_run_result(
            allowance.frequency@,
            allowance.interval_count as int,
            now,
            Err(e),
        ),
    }
}

/// Resumes an allowance at `now`: active again, at its next version, with its next run
/// one interval after `now`.
pub fn plan_resume(allowance: &Allowance, now: &UtcDateTime) -> (r: Result<Resumption, AppError>)
    requires
        now.wf(),
        allowance.sync_version < i64::MAX,
        next_run_defined(allowance.frequency@, allowance.interval_count as int, *now),
    ensures
        resume_result(*allowance, *now, r),
{
    match calculate_next_run(allowance.frequency.as_str(), allowance.interval_count, now) {
        Ok(t) => Ok(Resumption {
            next_run_at: format_sql_datetime(&t),
            status: "active".to_owned(),
            sync_version: allowance.sync_version + 1,
        }),
        Err(e) => Err(e),
    }
}

/// What resuming an allowance at the time read from the clock gives: `None` exactly when
/// its next run from that time cannot be represented; else the next run worked out then.
pub open spec fn resume_outcome(allowance: Allowance, now: UtcDateTime, r: Option<Result<Resumption, AppError>>) -> bool {
    let blocked = !next_run_defined(allowance.frequency@, allowance.interval_count as int, now);
    match r {
        None => blocked,
        Some(x) => !blocked && resume_result(allowance, now, x),
    }
}

/// Resumes an allowance (whatever its status) with its next run one interval after the
/// current time, which it returns beside the outcome. `None` when that run would lie
/// outside the dates chrono can represent.
pub fn resume_allowance(allowance: &Allowance) -> (r: (UtcDateTime, Option<Result<Resumption, AppError>>))
    requires
        allowance.sync_version < i64::MAX,
    ensures
        r.0.wf(),
        resume_outcome(*allowance, r.0, r.1),
        r.1 is None ==> Frequency::named(allowance.frequency@) is Some,
        Frequency::named(allowance.frequency@) is None ==> (r.1 matches Some(x) && fails_validation(
            x,
            "Invalid frequency"@,
        )),
{
    let now = now_utc();
    if !next_run_is_defined(allowance.frequency.as_str(), allowance.interval_count, &now) {
        return (now, None);
    }
    (now, Some(plan_resume(allowance, &now)))
}


/// What the store writes when an allowance pays out.
#[derive(Debug)]
pub struct Disbursement {
    /// The wallet's balance after the credit.
    pub new_balance: i64,
    /// The wallet's next version.
    pub wallet_sync_version: i64,
    /// The allowance's next version.
    pub allowance_sync_version: i64,
    /// The credit transaction to record.
    pub credit: NewTransaction,
    /// The event type of the notification (`allowance_disbursed`).
    pub notification_event: String,
    /// The payload of the `low_balance` notification, when one is due.
    pub low_balance_warning: Option<String>,
    /// When the allowance last ran (now), as the store keeps times.
    pub last_run_at: String,
    /// When it runs next, as the store keeps times.
    pub next_run_at: String,
    /// The payload of the `allowance_disbursed` notification.
    pub notification_payload: String,
    /// The details of the audit log entry.
    pub audit_details: String,
}

/// The notes of the credit an allowance of `amount` cents records.
pub open spec fn disbursement_note(amount: int) -> Seq<char> {
    "Allowance disbursement: "@ + decimal(amount)
}

/// The details of the audit log entry of a disbursement.
pub open spec fn disbursement_audit(allowance: Allowance) -> Seq<char> {
    "Executed allowance "@ + decimal(allowance.id as int) + " - credited "@ + decimal(
        allowance.amount_cents as int,
    ) + " cents to wallet "@ + decimal(allowance.wallet_id as int)
}

/// The entries of the `allowance_disbursed` notification payload.
pub open spec fn disbursement_payload_fields(allowance: Allowance) -> Seq<(Seq<char>, PayloadValueView)> {
    seq![
        ("allowance_id"@, PayloadValueView::Int(allowance.id)),
        ("wallet_id"@, PayloadValueView::Int(allowance.wallet_id)),
        ("amount_cents"@, PayloadValueView::Int(allowance.amount_cents)),
        ("receiver_member_id"@, PayloadValueView::Int(allowance.receiver_member_id)),
    ]
}

/// Whether `t` is the credit that paying `allowance` records.
pub open spec fn is_allowance_credit(t: NewTransaction, allowance: Allowance) -> bool {
    &&& t.family_id == allowance.family_id
    &&& t.wallet_id == allowance.wallet_id
    &&& t.type_@ == "credit"@
    &&& t.amount_cents == allowance.amount_cents
    &&& t.source_type@ == "allowance"@
    &&& t.source_id == Some(allowance.id)
    &&& t.category is None
    &&& crate::text::opt_view(t.notes) == Some(disbursement_note(allowance.amount_cents as int))
}

/// Whether paying `allowance` into `wallet` cannot overflow the balance or the versions.
pub open spec fn credit_fits(wallet: Option<WalletState>, allowance: Allowance) -> bool {
    match wallet {
        Some(w) => {
            &&& i64::MIN <= w.balance_cents + allowance.amount_cents <= i64::MAX
            &&& w.sync_version < i64::MAX
            &&& allowance.sync_version < i64::MAX
        },
        None => true,
    }
}

/// The entries of the `low_balance` notification payload.
pub open spec fn low_balance_fields(wallet_id: i64, balance: i64, threshold: i64) -> Seq<(Seq<char>, PayloadValueView)> {
    seq![
        ("wallet_id"@, PayloadValueView::Int(wallet_id)),
        ("balance_cents"@, PayloadValueView::Int(balance)),
        ("threshold_cents"@, PayloadValueView::Int(threshold)),
    ]
}

/// Whether `r` is the low-balance warning for a wallet left at `balance` with warning
/// threshold `threshold`: due when the threshold is positive and the balance at or below
/// it, with its payload.
pub open spec fn warning_result(wallet_id: i64, balance: i64, threshold: i64, r: Option<String>) -> bool {
    &&& r is Some <==> threshold > 0 && balance <= threshold
    &&& r matches Some(p) ==> p@ == json_object_text(low_balance_fields(wallet_id, balance, threshold))
}

/// Whether `r` is what paying `allowance` at time `now` gives, with the wallet as read
/// (`None` when it does not exist or is deleted): `WALLET_NOT_FOUND`, the
/// scheduling error, or the writes of the payment, the next run one interval after `now`.
pub open spec fn disburse_result(
    allowance: Allowance,
    wallet: Option<WalletState>,
    now: UtcDateTime,
    r: Result<Disbursement, AppError>,
) -> bool {
    &&& wallet is None ==> fails_not_found(r, "wallet"@)
    &&& wallet matches Some(w) ==> match r {
        Ok(d) => {
            &&& d.new_balance == w.balance_cents + allowance.amount_cents
            &&& d.wallet_sync_version == w.sync_version + 1
            &&& d.allowance_sync_version == allowance.sync_version + 1
            &&& is_allowance_credit(d.credit, allowance)
            &&& d.new_balance == w.balance_cents + signed_amount(d.credit.type_@, d.credit.amount_cents as int)
            &&& d.notification_event@ == "allowance_disbursed"@
            &&& warning_result(allowance.wallet_id, d.new_balance, w.warning_threshold_cents, d.low_balance_warning)
            &&& d.last_run_at@ == sql_datetime_text(now)
            &&& exists|t: UtcDateTime|
                #![trigger sql_datetime_text(t)]
                next_run_result(allowance.frequency@, allowance.interval_count as int, now, Ok(t))
                    && d.next_run_at@ == sql_datetime_text(t)
            &&& d.notification_payload@ == json_object_text(disbursement_payload_fields(allowance))
            &&& d.audit_details@ == disbursement_audit(allowance)
        },
        Err(e) => next_run_result(
            allowance.frequency@,
            allowance.interval_count as int,
            now,
            Err(e),
        ),
    }
}

/// Works out one payment of `allowance` at time `now`, given its wallet's balance,
/// warning threshold and version (`None` when the wallet does not exist or is deleted):
/// the wallet is credited with the amount, a low-balance warning is raised when the new
/// balance is at or below a positive threshold, and the next run is one interval after `now` (the stored run times are read
/// with a format chrono cannot parse, so the schedule always restarts from `now`).
pub fn disburse(allowance: &Allowance, wallet: Option<WalletState>, now: &UtcDateTime) -> (r: Result<
    Disbursement,
    AppError,
>)
    requires
        now.wf(),
        credit_fits(wallet, *allowance),
        wallet is Some ==> next_run_defined(
            allowance.frequency@,
            allowance.interval_count as int,
            *now,
        ),
    ensures
        disburse_result(*allowance, wallet, *now, r),
{
    let w = match wallet {
        Some(w) => w,
        None => {
            return Err(AppError::not_found("wallet"));
        },
    };
    let balance = w.balance_cents;
    let new_balance = balance + allowance.amount_cents;
    let mut note = "Allowance disbursement: ".to_owned();
    append_text(&mut note, decimal_of(allowance.amount_cents).as_str());
    let credit = NewTransaction {
        family_id: allowance.family_id,
        wallet_id: allowance.wallet_id,
        type_: "credit".to_owned(),
        amount_cents: allowance.amount_cents,
        source_type: "allowance".to_owned(),
        source_id: Some(allowance.id),
        category: None,
        notes: Some(note),
    };
    proof {
        lemma_type_names_distinct();
    }
    let base = match &allowance.last_run_at {
        Some(last) => match parse_sql_datetime_with_offset(last.as_str()) {
            Some(t) => t,
            None => *now,
        },
        None => match &allowance.next_run_at {
            Some(next) => match parse_sql_datetime_with_offset(next.as_str()) {
                Some(t) => t,
                None => *now,
            },
            None => *now,
        },
    };
    let next = calculate_next_run(allowance.frequency.as_str(), allowance.interval_count, &base)?;
    let next_run_at = format_sql_datetime(&next);
    let last_run_at = format_sql_datetime(now);
    let mut fields: Vec<PayloadField> = Vec::new();
    fields.push(int_field("allowance_id", allowance.id));
    fields.push(int_field("wallet_id", allowance.wallet_id));
    fields.push(int_field("amount_cents", allowance.amount_cents));
    fields.push(int_field("receiver_member_id", allowance.receiver_member_id));
    assert(fields_view(fields@) =~= disbursement_payload_fields(*allowance));
    let notification_payload = json_object(&fields);
    let mut audit_details = "Executed allowance ".to_owned();
    append_text(&mut audit_details, decimal_of(allowance.id).as_str());
    append_text(&mut audit_details, " - credited ");
    append_text(&mut audit_details, decimal_of(allowance.amount_cents).as_str());
    append_text(&mut audit_details, " cents to wallet ");
    append_text(&mut audit_details, decimal_of(allowance.wallet_id).as_str());
    let low_balance_warning = low_balance_warning(allowance.wallet_id, new_balance, w.warning_threshold_cents);
    Ok(Disbursement {
        new_balance,
        wallet_sync_version: w.sync_version + 1,
        allowance_sync_version: allowance.sync_version + 1,
        credit,
        notification_event: "allowance_disbursed".to_owned(),
        low_balance_warning,
        last_run_at,
        next_run_at,
        notification_payload,
        audit_details,
    })
}

/// What paying an allowance at the time read from the clock gives: `None` exactly when
/// the wallet exists and the next run from that time cannot be represented; else the
/// payment worked out at that time.
pub open spec fn execute_outcome(
    allowance: Allowance,
    wallet: Option<WalletState>,
    now: UtcDateTime,
    r: Option<Result<Disbursement, AppError>>,
) -> bool {
    match r {
        None => wallet is Some && !next_run_defined(allowance.frequency@, allowance.interval_count as int, now),
        Some(x) => !(wallet is Some && !next_run_defined(
            allowance.frequency@,
            allowance.interval_count as int,
            now,
        )) && disburse_result(allowance, wallet, now, x),
    }
}

/// Works out one payment of `allowance` at the current time, which it returns beside the
/// outcome. `None` when the next run would lie outside the dates chrono can represent.
pub fn execute_allowance(allowance: &Allowance, wallet: Option<WalletState>) -> (r: (
    UtcDateTime,
    Option<Result<Disbursement, AppError>>,
))
    requires
        credit_fits(wallet, *allowance),
    ensures
        r.0.wf(),
        execute_outcome(*allowance, wallet, r.0, r.1),
        wallet is None ==> (r.1 matches Some(x) && fails_not_found(x, "wallet"@)),
        r.1 is None ==> wallet is Some && Frequency::named(allowance.frequency@) is Some,
{
    let now = now_utc();
    if wallet.is_some() && !next_run_is_defined(
        allowance.frequency.as_str(),
        allowance.interval_count,
        &now,
    ) {
        return (now, None);
    }
    (now, Some(disburse(allowance, wallet, &now)))
}

/// A payment writes the wallet and the allowance one version above the ones it read, so
/// a giver still holding the old copies takes the new ones and then refuses the old ones.
pub proof fn law_disbursements_win_the_merge(
    allowance: Allowance,
    wallet: WalletState,
    now: UtcDateTime,
    d: Disbursement,
)
    requires
        disburse_result(allowance, Some(wallet), now, Ok(d)),
    ensures
        versioned_action(d.wallet_sync_version, Some(wallet.sync_version)) == MergeAction::Upsert,
        versioned_action(d.allowance_sync_version, Some(allowance.sync_version)) == MergeAction::Upsert,
        versioned_action(wallet.sync_version, Some(d.wallet_sync_version)) == MergeAction::Reject,
        versioned_action(allowance.sync_version, Some(d.allowance_sync_version)) == MergeAction::Reject,
{
}

/// The payload of the `low_balance` notification for a wallet whose balance fell to or
/// below its (positive) warning threshold; `None` when no warning is due.
pub fn low_balance_warning(wallet_id: i64, new_balance: i64, threshold_cents: i64) -> (r: Option<String>)
    ensures
        warning_result(wallet_id, new_balance, threshold_cents, r),
{
    if threshold_cents > 0 && new_balance <= threshold_cents {
        let mut fields: Vec<PayloadField> = Vec::new();
        fields.push(int_field("wallet_id", wallet_id));
        fields.push(int_field("balance_cents", new_balance));
        fields.push(int_field("threshold_cents", threshold_cents));
        assert(fields_view(fields@) =~= seq![
            ("wallet_id"@, PayloadValueView::Int(wallet_id)),
            ("balance_cents"@, PayloadValueView::Int(new_balance)),
            ("threshold_cents"@, PayloadValueView::Int(threshold_cents)),
        ]);
        Some(json_object(&fields))
    } else {
        None
    }
}

/// With a positive interval that fits in an `i32`, the next run comes after the time it
/// is counted from.
pub proof fn law_next_run_is_later(
    frequency: Seq<char>,
    interval: int,
    from: UtcDateTime,
    next: UtcDateTime,
)
    requires
        from.wf(),
        0 < interval <= i32::MAX,
        next_run_result(frequency, interval, from, Ok(next)),
    ensures
        next.epoch_second() > from.epoch_second(),
{
    match Frequency::named(frequency) {
        Some(Frequency::Monthly) => {
            let raw = raw_month(interval, from);
            assert((interval as i32) as int == interval);
            vstd::arithmetic::div_mod::lemma_fundamental_div_mod(raw - 1, 12);
            let y = target_year(interval, from);
            let m = target_month(interval, from);
            assert(month_index(y, m) == month_index(from.year as int, from.month as int) + interval);
            let t = monthly_target(interval, from)->0;
            assert(t == next);
            lemma_later_month_later_day(
                from.year as int,
                from.month as int,
                from.day as int,
                y,
                m,
                target_day(interval, from),
            );
        },
        _ => {},
    }
}

/// The statement that selects the allowances due now: active, live, with their next run
/// at or before the store's current time.
pub fn due_allowances_query() -> (s: String)
    ensures
        s@ == "SELECT * FROM allowances WHERE status = 'active' AND next_run_at <= datetime('now') AND is_deleted = 0"@,
{
    "SELECT * FROM allowances WHERE status = 'active' AND next_run_at <= datetime('now') AND is_deleted = 0".to_owned()
}

/// The statement that moves a live allowance to `status` (paused or archived), at its
/// next version.
pub fn status_update_query(id: i64, status: &str) -> (q: Query)
    ensures
        q.sql@ == "UPDATE allowances SET status = ?, sync_version = sync_version + 1, updated_at = datetime('now') WHERE id = ? AND is_deleted = 0"@,
        args_view(q.args@) == seq![SqlArgView::Text(status@), SqlArgView::Int(id)],
{
    let mut args: Vec<SqlArg> = Vec::new();
    args.push(SqlArg::Text(status.to_owned()));
    args.push(SqlArg::Int(id));
    assert(args_view(args@) =~= seq![SqlArgView::Text(status@), SqlArgView::Int(id)]);
    Query {
        sql: "UPDATE allowances SET status = ?, sync_version = sync_version + 1, updated_at = datetime('now') WHERE id = ? AND is_deleted = 0".to_owned(),
        args,
    }
}

} // verus!
