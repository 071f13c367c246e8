//! Families: the creator becomes its giver; other devices join with a pairing code.
use vstd::prelude::*;
use crate::error::{AppError, fails_validation, fails_not_found};
use crate::models::family::Family;
use crate::services::store::{SqlArg, SqlArgView, args_view};
use crate::services::transaction_service::Query;
use crate::text::{name_len_ok, trimmed, trimmed_name};

verus! {

/// The values of a new family and its first member that the store inserts.
#[derive(Debug)]
pub struct NewFamily {
    pub name: String,
    pub created_by_device: String,
    /// The family role of the creator's membership.
    pub creator_role: String,
}

/// Creates a family named by the trimmed name (1 to 50 characters long), created by the
/// device with the given uuid, which joins it as its giver.
pub fn create_family(device_uuid: &str, name: &str) -> (r: Result<NewFamily, AppError>)
    ensures
        !name_len_ok(name@) ==> fails_validation(r, "Family name must be 1-50 characters"@),
        name_len_ok(name@) ==> (r matches Ok(f) && f.name@ == trimmed(name@)
            && f.created_by_device@ == device_uuid@ && f.creator_role@ == "giver"@),
{
    match trimmed_name(name) {
        Some(t) => Ok(
            NewFamily {
                name: t.to_owned(),
                created_by_device: device_uuid.to_owned(),
                creator_role: "giver".to_owned(),
            },
        ),
        None => Err(AppError::validation("Family name must be 1-50 characters")),
    }
}

/// The family a device has just joined, or `FAMILY_NOT_FOUND`.
pub fn joined_family(found: Option<Family>) -> (r: Result<Family, AppError>)
    ensures
        found matches Some(f) ==> r == Ok::<Family, AppError>(f),
        found is None ==> fails_not_found(r, "family"@),
{
    crate::services::store::require_found(found, "family")
}

/// The statement that removes a member: marked removed and deleted, at its next version.
pub fn member_removal_query(member_id: i64) -> (q: Query)
    ensures
        q.sql@ == "UPDATE family_members SET status = 'removed', is_deleted = 1, sync_version = sync_version + 1, updated_at = datetime('now') WHERE id = ?"@,
        args_view(q.args@) == seq![SqlArgView::Int(member_id)],
{
    let mut args: Vec<SqlArg> = Vec::new();
    args.push(SqlArg::Int(member_id));
    assert(args_view(args@) =~= seq![SqlArgView::Int(member_id)]);
    Query {
        sql: "UPDATE family_members SET status = 'removed', is_deleted = 1, sync_version = sync_version + 1, updated_at = datetime('now') WHERE id = ?".to_owned(),
        args,
    }
}

} // verus!
