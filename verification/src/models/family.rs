use vstd::prelude::*;

verus! {

/// The role of a member within a family.
#[derive(Debug, Clone, Copy, PartialEq, Eq)]
pub enum FamilyRole {
    Giver,
    Baby,
    Viewer,
}

/// Whether a member still belongs to the family.
#[derive(Debug, Clone, Copy, PartialEq, Eq)]
pub enum MemberStatus {
    Active,
    Removed,
}

/// A family: the unit that owns wallets, requests and allowances.
#[derive(Debug, Clone)]
pub struct Family {
    pub id: i64,
    pub uuid: String,
    pub name: String,
    pub currency: String,
    pub timezone: String,
    pub created_by_device: String,
    pub sync_version: i64,
    pub last_synced_at: Option<String>,
    pub is_deleted: i64,
    pub created_at: String,
    pub updated_at: String,
}

/// A member of a family, tied to a device profile.
#[derive(Debug, Clone)]
pub struct FamilyMember {
    pub id: i64,
    pub uuid: String,
    pub family_id: i64,
    pub profile_uuid: String,
    pub family_role: String,
    pub status: String,
    pub joined_at: Option<String>,
    pub sync_version: i64,
    pub last_synced_at: Option<String>,
    pub is_deleted: i64,
    pub created_at: String,
    pub updated_at: String,
}

} // verus!
