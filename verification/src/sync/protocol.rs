//! The messages exchanged during a sync, and the sync status shown to the user.
use vstd::prelude::*;

verus! {

/// A baby device introduces itself to the giver.
#[derive(Debug, Clone)]
pub struct SyncHandshakeRequest {
    pub device_uuid: String,
    pub family_uuid: String,
    pub pairing_code: Option<String>,
}

/// The giver's answer to a handshake.
#[derive(Debug, Clone)]
pub struct SyncHandshakeResponse {
    pub success: bool,
    pub family_name: Option<String>,
}

/// A baby device's changes, sent to the giver.
#[derive(Debug, Clone)]
pub struct SyncPushRequest {
    pub device_uuid: String,
    pub changes: Vec<SyncChange>,
}

/// Which of the pushed changes the giver took (by uuid), and which it refused.
#[derive(Debug, Clone)]
pub struct SyncPushResponse {
    pub accepted: Vec<String>,
    pub rejected: Vec<String>,
}

/// A value of a record's column, as carried in JSON.
#[derive(Debug, Clone)]
pub enum FieldValue {
    Null,
    Bool(bool),
    Int(i64),
    /// A number that is no `i64`, in its JSON text.
    Number(String),
    Text(String),
    /// An array or object, in its JSON text.
    Nested(String),
}

/// A column of a record and its value.
#[derive(Debug, Clone)]
pub struct SyncField {
    pub name: String,
    pub value: FieldValue,
}

/// The data of a changed record: its columns when it is a JSON object, else the JSON text
/// of whatever it is.
#[derive(Debug, Clone)]
pub enum SyncData {
    Object(Vec<SyncField>),
    Other(String),
}

/// One changed record of a syncable table.
#[derive(Debug, Clone)]
pub struct SyncChange {
    pub table: String,
    pub uuid: String,
    pub sync_version: i64,
    pub data: SyncData,
    pub is_deleted: bool,
}

/// The giver's changes since the time a baby device asked about, and the giver's clock.
#[derive(Debug, Clone)]
pub struct SyncPullResponse {
    pub changes: Vec<SyncChange>,
    pub server_timestamp: String,
}

/// The sync state shown to the user: `disconnected`, `discovering`, `syncing`,
/// `connected` or `error`.
#[derive(Debug, Clone)]
pub struct SyncStatus {
    pub state: String,
    pub last_sync_at: Option<String>,
    pub peer_device_name: Option<String>,
    pub error_message: Option<String>,
}

impl Default for SyncStatus {
    fn default() -> (s: SyncStatus)
        ensures
            crate::sync::coordinator::status_coherent(s),
            s.state@ == "disconnected"@,
            s.last_sync_at is None,
            s.peer_device_name is None,
            s.error_message is None,
    {
        proof {
            crate::sync::coordinator::lemma_state_names_distinct();
        }
        SyncStatus {
            state: "disconnected".to_owned(),
            last_sync_at: None,
            peer_device_name: None,
            error_message: None,
        }
    }
}

} // verus!
