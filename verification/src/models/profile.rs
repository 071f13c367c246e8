use vstd::prelude::*;

verus! {

/// The role a device plays in the family.
#[derive(Debug, Clone, Copy, PartialEq, Eq)]
pub enum Role {
    Giver,
    Baby,
}

/// The profile of this device's owner.
#[derive(Debug, Clone)]
pub struct Profile {
    pub id: i64,
    pub uuid: String,
    pub display_name: String,
    pub role: String,
    pub locale: String,
    pub theme: String,
    pub pin_hash: Option<String>,
    pub sync_version: i64,
    pub last_synced_at: Option<String>,
    pub is_deleted: i64,
    pub created_at: String,
    pub updated_at: String,
}

} // verus!
