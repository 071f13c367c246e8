//! The giver's decisions when a baby device calls it.
use vstd::prelude::*;
use crate::sync::merge::MergeResult;
use crate::sync::protocol::{SyncChange, SyncHandshakeRequest, SyncHandshakeResponse, SyncPullResponse, SyncPushResponse};
use crate::text::{copy_opt_text, text_eq};

verus! {

/// The device a giver records on an accepted handshake: the caller, as an active baby
/// device named "Baby Device", in the family with the given uuid, last seen now.
#[derive(Debug, Clone)]
pub struct NewPairedDevice {
    pub device_uuid: String,
    pub display_name: String,
    pub role: String,
    pub family_uuid: String,
    pub is_active: i64,
}

/// Whether `d` is the device row recorded for the handshake `req`.
pub open spec fn is_paired_device_of(d: NewPairedDevice, req: SyncHandshakeRequest) -> bool {
    &&& d.device_uuid@ == req.device_uuid@
    &&& d.display_name@ == "Baby Device"@
    &&& d.role@ == "baby"@
    &&& d.family_uuid@ == req.family_uuid@
    &&& d.is_active == 1
}

/// What a handshake needs before it is accepted.
#[derive(Debug)]
pub enum HandshakeGate {
    /// The device belongs to another family: refuse.
    Refuse,
    /// A pairing code came with it: accept only if the code validates, then record the
    /// device.
    CheckCode(String, NewPairedDevice),
    /// Accept and record the device.
    Proceed(NewPairedDevice),
}

/// Decides on a handshake: a device of another family is refused; one that brings a
/// pairing code must have it validated; an accepted device is recorded.
pub fn handshake_gate(req: &SyncHandshakeRequest, family_uuid: &str) -> (g: HandshakeGate)
    ensures
        req.family_uuid@ != family_uuid@ ==> g is Refuse,
        req.family_uuid@ == family_uuid@ && req.pairing_code is None ==> (g matches HandshakeGate::Proceed(d)
            && is_paired_device_of(d, *req)),
        req.family_uuid@ == family_uuid@ && req.pairing_code is Some ==> (g matches HandshakeGate::CheckCode(c, d)
            && c@ == req.pairing_code->0@ && is_paired_device_of(d, *req)),
{
    if !text_eq(req.family_uuid.as_str(), family_uuid) {
        return HandshakeGate::Refuse;
    }
    let device = NewPairedDevice {
        device_uuid: req.device_uuid.clone(),
        display_name: "Baby Device".to_owned(),
        role: "baby".to_owned(),
        family_uuid: req.family_uuid.clone(),
        is_active: 1,
    };
    match &req.pairing_code {
        Some(c) => HandshakeGate::CheckCode(c.clone(), device),
        None => HandshakeGate::Proceed(device),
    }
}

/// The answer to a refused handshake.
pub fn handshake_refused() -> (r: SyncHandshakeResponse)
    ensures
        !r.success,
        r.family_name is None,
{
    SyncHandshakeResponse { success: false, family_name: None }
}

/// The answer to an accepted handshake, with the family's name when the giver has it.
pub fn handshake_accepted(family_name: Option<String>) -> (r: SyncHandshakeResponse)
    ensures
        r.success,
        r.family_name == family_name,
{
    SyncHandshakeResponse { success: true, family_name }
}

/// The time a pull asks about: the one given, else the start of 1970 (everything).
pub fn pull_since(since: Option<String>) -> (s: String)
    ensures
        since matches Some(t) ==> s == t,
        since is None ==> s@ == "1970-01-01 00:00:00"@,
{
    match since {
        Some(t) => t,
        None => "1970-01-01 00:00:00".to_owned(),
    }
}

/// The answer to a push and whether it succeeded: the merge's lists, or two empty lists
/// when the merge failed.
pub fn push_outcome(result: Result<MergeResult, String>) -> (r: (bool, SyncPushResponse))
    ensures
        result matches Ok(m) ==> r.0 && r.1.accepted == m.accepted && r.1.rejected == m.rejected,
        result is Err ==> !r.0 && r.1.accepted@.len() == 0 && r.1.rejected@.len() == 0,
{
    match result {
        Ok(m) => (true, SyncPushResponse { accepted: m.accepted, rejected: m.rejected }),
        Err(_) => (false, SyncPushResponse { accepted: Vec::new(), rejected: Vec::new() }),
    }
}

/// The answer to a pull and whether it succeeded: the collected changes, or none when
/// collecting failed; either way with the giver's clock.
pub fn pull_outcome(result: Result<Vec<SyncChange>, String>, server_timestamp: String) -> (r: (
    bool,
    SyncPullResponse,
))
    ensures
        result matches Ok(c) ==> r.0 && r.1.changes == c,
        result is Err ==> !r.0 && r.1.changes@.len() == 0,
        r.1.server_timestamp == server_timestamp,
{
    match result {
        Ok(changes) => (true, SyncPullResponse { changes, server_timestamp }),
        Err(_) => (false, SyncPullResponse { changes: Vec::new(), server_timestamp }),
    }
}

} // verus!
