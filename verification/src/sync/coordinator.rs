//! The sync cycle of a device and the status it shows. The giver serves and does not
//! start cycles; a baby device discovers the giver, shakes hands, pushes its changes and
//! pulls the giver's.
use vstd::prelude::*;
use crate::sync::discovery::{PeerInfo, peer_view};
use crate::sync::protocol::{SyncChange, SyncStatus};
use crate::text::text_eq;
use crate::time::{format_sql_datetime, now_utc, sql_datetime_text};

verus! {

/// The part a device plays in syncing.
#[derive(Debug, Clone, Copy, PartialEq, Eq)]
pub enum SyncRole {
    /// Serves its data and advertises itself.
    Giver,
    /// Finds the giver and syncs with it.
    Baby,
}

impl SyncRole {
    /// The sync role of a device whose profile has the given role: `giver` serves, any
    /// other role syncs as a baby.
    pub fn for_profile_role(role: &str) -> (r: SyncRole)
        ensures
            role@ == "giver"@ ==> r == SyncRole::Giver,
            role@ != "giver"@ ==> r == SyncRole::Baby,
    {
        if text_eq(role, "giver") {
            SyncRole::Giver
        } else {
            SyncRole::Baby
        }
    }

    /// Whether this device starts sync cycles (only babies do).
    pub fn starts_cycles(&self) -> (r: bool)
        ensures
            r == (*self == SyncRole::Baby),
    {
        match self {
            SyncRole::Baby => true,
            SyncRole::Giver => false,
        }
    }

    /// Whether this device pays out allowances (only the giver does).
    pub fn runs_allowances(&self) -> (r: bool)
        ensures
            r == (*self == SyncRole::Giver),
    {
        match self {
            SyncRole::Giver => true,
            SyncRole::Baby => false,
        }
    }
}

/// The sync status shown to the user is coherent: `connected` shows no error, `error`
/// shows what went wrong, and `syncing` names the peer.
pub open spec fn status_coherent(s: SyncStatus) -> bool {
    &&& s.state@ == "connected"@ ==> s.error_message is None
    &&& s.state@ == "error"@ ==> s.error_message is Some
    &&& s.state@ == "syncing"@ ==> s.peer_device_name is Some
}

/// The names of the states that the coherence of a status speaks of differ from the
/// other state names.
pub(crate) proof fn lemma_state_names_distinct()
    ensures
        "connected"@ != "discovering"@,
        "connected"@ != "disconnected"@,
        "connected"@ != "error"@,
        "connected"@ != "syncing"@,
        "error"@ != "discovering"@,
        "error"@ != "disconnected"@,
        "error"@ != "syncing"@,
        "syncing"@ != "discovering"@,
        "syncing"@ != "disconnected"@,
{
    reveal_strlit("connected");
    reveal_strlit("discovering");
    reveal_strlit("disconnected");
    reveal_strlit("error");
    reveal_strlit("syncing");
    assert("connected"@[0] != "discovering"@[0]);
    assert("connected"@[0] != "error"@[0]);
    assert("connected"@[0] != "syncing"@[0]);
    assert("error"@[0] != "discovering"@[0]);
    assert("error"@[0] != "syncing"@[0]);
    assert("syncing"@[0] != "discovering"@[0]);
}

/// The status of a giver that has started serving: connected.
pub fn giver_started() -> (s: SyncStatus)
    ensures
        status_coherent(s),
        s.state@ == "connected"@,
        s.last_sync_at is None,
        s.peer_device_name is None,
        s.error_message is None,
{
    proof {
        lemma_state_names_distinct();
    }
    SyncStatus {
        state: "connected".to_owned(),
        last_sync_at: None,
        peer_device_name: None,
        error_message: None,
    }
}

/// The status of a baby device before its first cycle: discovering.
pub fn baby_started() -> (s: SyncStatus)
    ensures
        status_coherent(s),
        s.state@ == "discovering"@,
        s.last_sync_at is None,
        s.peer_device_name is None,
        s.error_message is None,
{
    proof {
        lemma_state_names_distinct();
    }
    SyncStatus {
        state: "discovering".to_owned(),
        last_sync_at: None,
        peer_device_name: None,
        error_message: None,
    }
}

/// A cycle starts: discovering, with no error.
pub fn begin_cycle(s: &mut SyncStatus)
    ensures
        status_coherent(*old(s)) ==> status_coherent(*final(s)),
        final(s).state@ == "discovering"@,
        final(s).error_message is None,
        final(s).last_sync_at == old(s).last_sync_at,
        final(s).peer_device_name == old(s).peer_device_name,
{
    proof {
        lemma_state_names_distinct();
    }
    s.state = "discovering".to_owned();
    s.error_message = None;
}

/// No giver was found: disconnected, with an explanation; the cycle fails with
/// `PEER_NOT_FOUND`.
pub fn no_peer_found(s: &mut SyncStatus) -> (e: String)
    ensures
        status_coherent(*old(s)) ==> status_coherent(*final(s)),
        final(s).state@ == "disconnected"@,
        final(s).error_message matches Some(m) && m@ == "No Giver device found on this network"@,
        final(s).last_sync_at == old(s).last_sync_at,
        final(s).peer_device_name == old(s).peer_device_name,
        e@ == "PEER_NOT_FOUND"@,
{
    proof {
        lemma_state_names_distinct();
    }
    s.state = "disconnected".to_owned();
    s.error_message = Some("No Giver device found on this network".to_owned());
    "PEER_NOT_FOUND".to_owned()
}

/// The giver refused the handshake: error; the cycle fails with `HANDSHAKE_FAILED`.
pub fn handshake_failed(s: &mut SyncStatus) -> (e: String)
    ensures
        status_coherent(*old(s)) ==> status_coherent(*final(s)),
        final(s).state@ == "error"@,
        final(s).error_message matches Some(m) && m@ == "Handshake failed"@,
        final(s).last_sync_at == old(s).last_sync_at,
        final(s).peer_device_name == old(s).peer_device_name,
        e@ == "HANDSHAKE_FAILED"@,
{
    proof {
        lemma_state_names_distinct();
    }
    s.state = "error".to_owned();
    s.error_message = Some("Handshake failed".to_owned());
    "HANDSHAKE_FAILED".to_owned()
}

/// The handshake succeeded: syncing with the named peer.
pub fn peer_connected(s: &mut SyncStatus, peer_device_name: &str)
    ensures
        status_coherent(*old(s)) ==> status_coherent(*final(s)),
        final(s).state@ == "syncing"@,
        final(s).peer_device_name matches Some(n) && n@ == peer_device_name@,
        final(s).last_sync_at == old(s).last_sync_at,
        final(s).error_message == old(s).error_message,
{
    proof {
        lemma_state_names_distinct();
    }
    s.state = "syncing".to_owned();
    s.peer_device_name = Some(peer_device_name.to_owned());
}

/// The cycle finished at the given time: connected, with no error.
pub fn cycle_finished(s: &mut SyncStatus, finished_at: String)
    ensures
        status_coherent(*old(s)) ==> status_coherent(*final(s)),
        final(s).state@ == "connected"@,
        final(s).last_sync_at == Some(finished_at),
        final(s).error_message is None,
        final(s).peer_device_name == old(s).peer_device_name,
{
    proof {
        lemma_state_names_distinct();
    }
    s.state = "connected".to_owned();
    s.last_sync_at = Some(finished_at);
    s.error_message = None;
}

/// Syncing stopped: disconnected.
pub fn sync_stopped(s: &mut SyncStatus)
    ensures
        status_coherent(*old(s)) ==> status_coherent(*final(s)),
        final(s).state@ == "disconnected"@,
        final(s).last_sync_at == old(s).last_sync_at,
        final(s).peer_device_name == old(s).peer_device_name,
        final(s).error_message == old(s).error_message,
{
    proof {
        lemma_state_names_distinct();
    }
    s.state = "disconnected".to_owned();
}

/// The time of the last sync as stored, else the start of 1970 (so everything is new).
pub fn last_sync_or_epoch(found: Option<String>) -> (s: String)
    ensures
        found matches Some(t) ==> s == t,
        found is None ==> s@ == "1970-01-01 00:00:00"@,
{
    match found {
        Some(t) => t,
        None => "1970-01-01 00:00:00".to_owned(),
    }
}

/// The current time as sync records it (`%Y-%m-%d %H:%M:%S`).
pub fn sync_timestamp() -> (s: String)
    ensures
        exists|t: crate::time::UtcDateTime| #![trigger sql_datetime_text(t)] t.wf() && s@ == sql_datetime_text(t),
{
    let now = now_utc();
    format_sql_datetime(&now)
}

/// What a baby device's sync cycle remembers between its steps.
#[derive(Debug, Clone)]
pub struct SyncCycle {
    /// The device's part in syncing.
    pub role: SyncRole,
    /// The name of the giver found.
    pub peer_device_name: String,
    /// The time of the last sync, from which changes are exchanged.
    pub last_sync: String,
}

impl SyncCycle {
    /// A cycle not started yet.
    pub fn new(role: SyncRole) -> (c: SyncCycle)
        ensures
            c.role == role,
            c.peer_device_name@ == Seq::<char>::empty(),
            c.last_sync@ == "1970-01-01 00:00:00"@,
    {
        SyncCycle { role, peer_device_name: String::new(), last_sync: "1970-01-01 00:00:00".to_owned() }
    }
}

/// What happened since the last step of a cycle.
#[derive(Debug)]
pub enum SyncEvent {
    /// A cycle is asked for.
    Start,
    /// The search for the giver ended with these peers.
    PeersFound(Vec<PeerInfo>),
    /// The giver answered the handshake: accepted or not.
    HandshakeReplied(bool),
    /// The stored time of the last sync was read, if there is one.
    LastSyncRead(Option<String>),
    /// The local changes since the last sync were collected.
    LocalChanges(Vec<SyncChange>),
    /// The local changes were pushed.
    Pushed,
    /// The giver's changes since the last sync were pulled.
    Pulled(Vec<SyncChange>),
    /// The pulled changes were applied.
    Applied,
}

/// What the device must do next in a cycle.
#[derive(Debug)]
pub enum SyncAction {
    /// Nothing: the cycle is over (or, on the giver, there is none).
    Done,
    /// Search the network for the giver.
    Discover,
    /// Shake hands with this peer.
    Handshake(PeerInfo),
    /// Read the stored time of the last sync.
    ReadLastSync,
    /// Collect the local changes since this time.
    CollectSince(String),
    /// Push these changes to the giver.
    Push(Vec<SyncChange>),
    /// Pull the giver's changes since this time.
    Pull(String),
    /// Apply these pulled changes.
    Apply(Vec<SyncChange>),
    /// The cycle fails with this code.
    Fail(String),
}

/// A copy of a peer.
fn copy_peer(p: &PeerInfo) -> (q: PeerInfo)
    ensures
        peer_view(q) == peer_view(*p),
{
    PeerInfo {
        ip: p.ip.clone(),
        port: p.port,
        device_name: p.device_name.clone(),
        family_uuid: p.family_uuid.clone(),
    }
}

/// The cycle is finished: connected at the current time, with no error.
pub open spec fn finished_status(old: SyncStatus, new: SyncStatus) -> bool {
    &&& new.state@ == "connected"@
    &&& new.error_message is None
    &&& new.peer_device_name == old.peer_device_name
    &&& exists|t: crate::time::UtcDateTime|
        #![trigger sql_datetime_text(t)]
        t.wf() && (new.last_sync_at matches Some(s) && s@ == sql_datetime_text(t))
}

/// Whether the action fails the cycle with the given code.
pub open spec fn fails_with_code(a: SyncAction, code: Seq<char>) -> bool {
    a matches SyncAction::Fail(m) && m@ == code
}

/// Whether the action pulls the giver's changes since the given time.
pub open spec fn pulls_since(a: SyncAction, since: Seq<char>) -> bool {
    a matches SyncAction::Pull(t) && t@ == since
}

/// Whether the status shows the state with the given error message.
pub open spec fn shows_error(s: SyncStatus, state: Seq<char>, message: Seq<char>) -> bool {
    s.state@ == state && (s.error_message matches Some(e) && e@ == message)
}

/// One step of a sync cycle: from what happened, the status shown and the action to take
/// next. The giver starts no cycle. A baby device searches for the giver; stops, with
/// `PEER_NOT_FOUND`, when none is found; shakes hands with the first peer found; stops,
/// with `HANDSHAKE_FAILED`, when refused; reads the time of its last sync; pushes its
/// changes since then when there are any; pulls the giver's changes since then; applies
/// them when there are any; and then records the sync.
pub fn sync_step(cycle: &mut SyncCycle, status: &mut SyncStatus, event: SyncEvent) -> (a: SyncAction)
    requires
        status_coherent(*old(status)),
    ensures
        status_coherent(*final(status)),
        final(cycle).role == old(cycle).role,
        event is Start && old(cycle).role == SyncRole::Giver ==> a is Done && *final(status) == *old(status),
        event is Start && old(cycle).role == SyncRole::Baby ==> a is Discover && final(status).state@ == "discovering"@
            && final(status).error_message is None,
        event matches SyncEvent::PeersFound(p) ==> (p.len() == 0 ==> (fails_with_code(a, "PEER_NOT_FOUND"@)
            && shows_error(*final(status), "disconnected"@, "No Giver device found on this network"@))),
        event matches SyncEvent::PeersFound(p) ==> (p.len() > 0 ==> ((a matches SyncAction::Handshake(q)
            && peer_view(q) == peer_view(p[0])) && final(cycle).peer_device_name@ == p[0].device_name@
            && *final(status) == *old(status))),
        event == SyncEvent::HandshakeReplied(false) ==> (fails_with_code(a, "HANDSHAKE_FAILED"@)
            && shows_error(*final(status), "error"@, "Handshake failed"@)),
        event == SyncEvent::HandshakeReplied(true) ==> (a is ReadLastSync && final(status).state@ == "syncing"@
            && (final(status).peer_device_name matches Some(n) && n@ == old(cycle).peer_device_name@)),
        event matches SyncEvent::LastSyncRead(o) ==> (final(cycle).last_sync@ == match o {
            Some(t) => t@,
            None => "1970-01-01 00:00:00"@,
        } && (a matches SyncAction::CollectSince(t) && t@ == final(cycle).last_sync@) && *final(status) == *old(status)),
        event matches SyncEvent::LocalChanges(c) ==> (c.len() > 0 ==> a == SyncAction::Push(c)),
        event matches SyncEvent::LocalChanges(c) ==> (c.len() == 0 ==> pulls_since(a, old(cycle).last_sync@)),
        event is Pushed ==> pulls_since(a, old(cycle).last_sync@),
        (event is LocalChanges || event is Pushed) ==> *final(status) == *old(status),
        event matches SyncEvent::Pulled(c) ==> (c.len() > 0 ==> a == SyncAction::Apply(c) && *final(status) == *old(status)),
        event matches SyncEvent::Pulled(c) ==> (c.len() == 0 ==> a is Done && finished_status(*old(status), *final(status))),
        event is Applied ==> a is Done && finished_status(*old(status), *final(status)),
{
    match event {
        SyncEvent::Start => match cycle.role {
            SyncRole::Giver => SyncAction::Done,
            SyncRole::Baby => {
                begin_cycle(status);
                SyncAction::Discover
            },
        },
        SyncEvent::PeersFound(peers) => {
            if peers.len() == 0 {
                let code = no_peer_found(status);
                SyncAction::Fail(code)
            } else {
                let peer = copy_peer(&peers[0]);
                cycle.peer_device_name = peers[0].device_name.clone();
                SyncAction::Handshake(peer)
            }
        },
        SyncEvent::HandshakeReplied(accepted) => {
            if accepted {
                peer_connected(status, cycle.peer_device_name.as_str());
                SyncAction::ReadLastSync
            } else {
                let code = handshake_failed(status);
                SyncAction::Fail(code)
            }
        },
        SyncEvent::LastSyncRead(found) => {
            cycle.last_sync = last_sync_or_epoch(found);
            SyncAction::CollectSince(cycle.last_sync.clone())
        },
        SyncEvent::LocalChanges(changes) => {
            if changes.len() > 0 {
                SyncAction::Push(changes)
            } else {
                SyncAction::Pull(cycle.last_sync.clone())
            }
        },
        SyncEvent::Pushed => SyncAction::Pull(cycle.last_sync.clone()),
        SyncEvent::Pulled(changes) => {
            if changes.len() > 0 {
                SyncAction::Apply(changes)
            } else {
                cycle_finished(status, sync_timestamp());
                SyncAction::Done
            }
        },
        SyncEvent::Applied => {
            cycle_finished(status, sync_timestamp());
            SyncAction::Done
        },
    }
}

} // verus!
