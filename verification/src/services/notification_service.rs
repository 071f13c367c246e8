//! Notifications: marking them read.
use vstd::prelude::*;
use crate::error::{AppError, fails_not_found};

verus! {

/// The outcome of marking a notification read, given how many rows the update touched:
/// `NOTIFICATION_NOT_FOUND` when none.
pub fn mark_read(rows_affected: u64) -> (r: Result<(), AppError>)
    ensures
        rows_affected > 0 ==> r is Ok,
        rows_affected == 0 ==> fails_not_found(r, "notification"@),
{
    crate::services::store::require_affected(rows_affected, "notification")
}

} // verus!
