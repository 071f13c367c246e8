use vstd::prelude::*;

verus! {

/// The kind of place money is kept.
#[derive(Debug, Clone, Copy, PartialEq, Eq)]
pub enum WalletType {
    Cash,
    Bank,
    Card,
    Virtual,
}

/// Whether a wallet is in use.
#[derive(Debug, Clone, Copy, PartialEq, Eq)]
pub enum WalletStatus {
    Active,
    Archived,
}

/// A wallet and its balance in cents.
#[derive(Debug, Clone)]
pub struct Wallet {
    pub id: i64,
    pub uuid: String,
    pub family_id: i64,
    pub name: String,
    pub type_: String,
    pub balance_cents: i64,
    pub currency: String,
    pub warning_threshold_cents: i64,
    pub status: String,
    pub sync_version: i64,
    pub last_synced_at: Option<String>,
    pub is_deleted: i64,
    pub created_at: String,
    pub updated_at: String,
}

/// What an operation that moves money reads of a wallet: its balance, its warning
/// threshold and its version.
#[derive(Debug, Clone, Copy, PartialEq, Eq)]
pub struct WalletState {
    pub balance_cents: i64,
    pub warning_threshold_cents: i64,
    pub sync_version: i64,
}

} // verus!
