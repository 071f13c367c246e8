use vstd::prelude::*;

verus! {

/// Where a spending request is in its life.
#[derive(Debug, Clone, Copy, PartialEq, Eq)]
pub enum RequestStatus {
    Draft,
    Pending,
    Approved,
    Rejected,
    Cancelled,
}

/// What a request is for.
#[derive(Debug, Clone, Copy, PartialEq, Eq)]
pub enum RequestCategory {
    Food,
    Transport,
    Education,
    Entertainment,
    Clothing,
    Health,
    Other,
}

/// A request by a child to spend money from a wallet.
#[derive(Debug, Clone)]
pub struct Request {
    pub id: i64,
    pub uuid: String,
    pub family_id: i64,
    pub requester_member_id: i64,
    pub wallet_id: i64,
    pub amount_cents: i64,
    pub category: Option<String>,
    pub notes: Option<String>,
    pub attachment_url: Option<String>,
    pub status: String,
    pub decision_by_member_id: Option<i64>,
    pub decision_at: Option<String>,
    pub rejection_reason: Option<String>,
    pub sync_version: i64,
    pub last_synced_at: Option<String>,
    pub is_deleted: i64,
    pub created_at: String,
    pub updated_at: String,
}

} // verus!

verus! {

/// The five status names are different texts.
pub proof fn lemma_status_names_distinct()
    ensures
        "draft"@ != "pending"@,
        "draft"@ != "approved"@,
        "draft"@ != "rejected"@,
        "draft"@ != "cancelled"@,
        "pending"@ != "approved"@,
        "pending"@ != "rejected"@,
        "pending"@ != "cancelled"@,
        "approved"@ != "rejected"@,
        "approved"@ != "cancelled"@,
        "rejected"@ != "cancelled"@,
{
    reveal_strlit("draft");
    reveal_strlit("pending");
    reveal_strlit("approved");
    reveal_strlit("rejected");
    reveal_strlit("cancelled");
    assert("draft"@[0] != "pending"@[0]);
    assert("approved"@[0] != "rejected"@[0]);
    assert("approved"@[0] != "pending"@[0]);
    assert("rejected"@[0] != "pending"@[0]);
}

impl RequestStatus {
    /// The status a name stands for, if any (`draft`, `pending`, `approved`, `rejected`,
    /// `cancelled`).
    pub open spec fn named(s: Seq<char>) -> Option<RequestStatus> {
        if s == "draft"@ {
            Some(RequestStatus::Draft)
        } else if s == "pending"@ {
            Some(RequestStatus::Pending)
        } else if s == "approved"@ {
            Some(RequestStatus::Approved)
        } else if s == "rejected"@ {
            Some(RequestStatus::Rejected)
        } else if s == "cancelled"@ {
            Some(RequestStatus::Cancelled)
        } else {
            None
        }
    }

    /// The name stored for a status.
    pub open spec fn name(self) -> Seq<char> {
        match self {
            RequestStatus::Draft => "draft"@,
            RequestStatus::Pending => "pending"@,
            RequestStatus::Approved => "approved"@,
            RequestStatus::Rejected => "rejected"@,
            RequestStatus::Cancelled => "cancelled"@,
        }
    }

    /// The status a name stands for, if any.
    pub fn from_name(s: &str) -> (r: Option<RequestStatus>)
        ensures
            r == RequestStatus::named(s@),
    {
        if crate::text::text_eq(s, "draft") {
            Some(RequestStatus::Draft)
        } else if crate::text::text_eq(s, "pending") {
            Some(RequestStatus::Pending)
        } else if crate::text::text_eq(s, "approved") {
            Some(RequestStatus::Approved)
        } else if crate::text::text_eq(s, "rejected") {
            Some(RequestStatus::Rejected)
        } else if crate::text::text_eq(s, "cancelled") {
            Some(RequestStatus::Cancelled)
        } else {
            None
        }
    }

    /// The name stored for this status.
    pub fn to_name(&self) -> (s: String)
        ensures
            s@ == self.name(),
    {
        match self {
            RequestStatus::Draft => "draft".to_owned(),
            RequestStatus::Pending => "pending".to_owned(),
            RequestStatus::Approved => "approved".to_owned(),
            RequestStatus::Rejected => "rejected".to_owned(),
            RequestStatus::Cancelled => "cancelled".to_owned(),
        }
    }
}

} // verus!
