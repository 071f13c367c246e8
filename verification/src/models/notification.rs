use vstd::prelude::*;

verus! {

/// The kinds of event a notification reports.
#[derive(Debug, Clone, Copy, PartialEq, Eq)]
pub enum EventType {
    RequestSubmitted,
    RequestApproved,
    RequestRejected,
    AllowanceDisbursed,
    LowBalance,
    MemberJoined,
}

/// A notification shown to the user.
#[derive(Debug, Clone)]
pub struct Notification {
    pub id: i64,
    pub event_type: String,
    pub payload: Option<String>,
    pub is_read: i64,
    pub read_at: Option<String>,
    pub created_at: String,
}

} // verus!
