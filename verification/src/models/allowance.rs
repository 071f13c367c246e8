use vstd::prelude::*;

verus! {

/// How often an allowance is paid.
#[derive(Debug, Clone, Copy, PartialEq, Eq)]
pub enum Frequency {
    Daily,
    Weekly,
    Biweekly,
    Monthly,
    Custom,
}

/// Whether an allowance is paying out.
#[derive(Debug, Clone, Copy, PartialEq, Eq)]
pub enum AllowanceStatus {
    Active,
    Paused,
    Archived,
}

/// A recurring payment from a giver into a wallet.
#[derive(Debug, Clone)]
pub struct Allowance {
    pub id: i64,
    pub uuid: String,
    pub family_id: i64,
    pub giver_member_id: i64,
    pub receiver_member_id: i64,
    pub wallet_id: i64,
    pub amount_cents: i64,
    pub frequency: String,
    pub interval_count: i64,
    pub next_run_at: Option<String>,
    pub last_run_at: Option<String>,
    pub status: String,
    pub notes: Option<String>,
    pub sync_version: i64,
    pub last_synced_at: Option<String>,
    pub is_deleted: i64,
    pub created_at: String,
    pub updated_at: String,
}

} // verus!

verus! {

/// The five frequency names are different texts.
pub proof fn lemma_frequency_names_distinct()
    ensures
        "daily"@ != "weekly"@,
        "daily"@ != "biweekly"@,
        "daily"@ != "monthly"@,
        "daily"@ != "custom"@,
        "weekly"@ != "biweekly"@,
        "weekly"@ != "monthly"@,
        "weekly"@ != "custom"@,
        "biweekly"@ != "monthly"@,
        "biweekly"@ != "custom"@,
        "monthly"@ != "custom"@,
{
    reveal_strlit("daily");
    reveal_strlit("weekly");
    reveal_strlit("biweekly");
    reveal_strlit("monthly");
    reveal_strlit("custom");
    assert("daily"@[0] != "weekly"@[0]);
    assert("biweekly"@[0] != "monthly"@[0]);
    assert("daily"@[0] != "custom"@[0]);
}

impl Frequency {
    /// The frequency a name stands for, if any (`daily`, `weekly`, `biweekly`, `monthly`,
    /// `custom`).
    pub open spec fn named(s: Seq<char>) -> Option<Frequency> {
        if s == "daily"@ {
            Some(Frequency::Daily)
        } else if s == "weekly"@ {
            Some(Frequency::Weekly)
        } else if s == "biweekly"@ {
            Some(Frequency::Biweekly)
        } else if s == "monthly"@ {
            Some(Frequency::Monthly)
        } else if s == "custom"@ {
            Some(Frequency::Custom)
        } else {
            None
        }
    }

    /// The frequency a name stands for, if any.
    pub fn from_name(s: &str) -> (r: Option<Frequency>)
        ensures
            r == Frequency::named(s@),
    {
        if crate::text::text_eq(s, "daily") {
            Some(Frequency::Daily)
        } else if crate::text::text_eq(s, "weekly") {
            Some(Frequency::Weekly)
        } else if crate::text::text_eq(s, "biweekly") {
            Some(Frequency::Biweekly)
        } else if crate::text::text_eq(s, "monthly") {
            Some(Frequency::Monthly)
        } else if crate::text::text_eq(s, "custom") {
            Some(Frequency::Custom)
        } else {
            None
        }
    }
}

} // verus!
