//! First-time setup of a device: one profile per device, as giver or baby.
use vstd::prelude::*;
use crate::error::{AppError, fails_validation, fails_with};
use crate::models::profile::{Profile, Role};
use crate::text::{name_len_ok, trimmed, trimmed_name};

verus! {

impl Role {
    /// The role a name stands for, if any (`giver`, `baby`).
    pub open spec fn named(s: Seq<char>) -> Option<Role> {
        if s == "giver"@ {
            Some(Role::Giver)
        } else if s == "baby"@ {
            Some(Role::Baby)
        } else {
            None
        }
    }

    /// The role a name stands for, if any.
    pub fn from_name(s: &str) -> (r: Option<Role>)
        ensures
            r == Role::named(s@),
    {
        if crate::text::text_eq(s, "giver") {
            Some(Role::Giver)
        } else if crate::text::text_eq(s, "baby") {
            Some(Role::Baby)
        } else {
            None
        }
    }
}

/// The values of the profile that the store inserts.
#[derive(Debug)]
pub struct NewProfile {
    pub display_name: String,
    pub role: String,
}

/// Sets the device up: refused when a profile exists already; the role must be `giver`
/// or `baby`, and the display name, trimmed, 1 to 50 characters long.
pub fn setup_device(already_set_up: bool, display_name: &str, role: &str) -> (r: Result<
    NewProfile,
    AppError,
>)
    ensures
        already_set_up ==> fails_with(r, "DEVICE_ALREADY_SETUP"@, "Device is already set up"@),
        !already_set_up && Role::named(role@) is None ==> fails_validation(
            r,
            "Role must be 'giver' or 'baby'"@,
        ),
        !already_set_up && Role::named(role@) is Some && !name_len_ok(display_name@)
            ==> fails_validation(r, "Display name must be 1-50 characters"@),
        !already_set_up && Role::named(role@) is Some && name_len_ok(display_name@) ==> (r matches Ok(
            p,
        ) && p.display_name@ == trimmed(display_name@) && p.role@ == role@),
{
    if already_set_up {
        return Err(AppError::new("DEVICE_ALREADY_SETUP", "Device is already set up"));
    }
    if Role::from_name(role).is_none() {
        return Err(AppError::validation("Role must be 'giver' or 'baby'"));
    }
    match trimmed_name(display_name) {
        Some(name) => Ok(NewProfile { display_name: name.to_owned(), role: role.to_owned() }),
        None => Err(AppError::validation("Display name must be 1-50 characters")),
    }
}

/// Why a profile is needed.
#[derive(Debug, Clone, Copy, PartialEq, Eq)]
pub enum ProfileUse {
    CreateFamily,
    JoinFamily,
}

/// The message when the device is not set up for `purpose`.
pub open spec fn not_set_up_message(purpose: ProfileUse) -> Seq<char> {
    match purpose {
        ProfileUse::CreateFamily => "Device must be set up before creating a family"@,
        ProfileUse::JoinFamily => "Device must be set up before joining a family"@,
    }
}

/// The device's profile, which `purpose` needs; `DEVICE_NOT_SETUP` when there is none.
pub fn require_profile(found: Option<Profile>, purpose: ProfileUse) -> (r: Result<Profile, AppError>)
    ensures
        found matches Some(p) ==> r == Ok::<Profile, AppError>(p),
        found is None ==> fails_with(r, "DEVICE_NOT_SETUP"@, not_set_up_message(purpose)),
{
    match found {
        Some(p) => Ok(p),
        None => {
            let message = match purpose {
                ProfileUse::CreateFamily => "Device must be set up before creating a family",
                ProfileUse::JoinFamily => "Device must be set up before joining a family",
            };
            Err(AppError::new("DEVICE_NOT_SETUP", message))
        },
    }
}

/// The tables a device reset empties, in the order it empties them: those that refer to
/// others before those they refer to.
pub open spec fn reset_order() -> Seq<Seq<char>> {
    seq![
        "audit_logs"@,
        "notifications"@,
        "transactions"@,
        "requests"@,
        "allowances"@,
        "wallets"@,
        "paired_devices"@,
        "family_members"@,
        "families"@,
        "profiles"@,
        "sync_state"@,
    ]
}

/// The tables a device reset empties, in order.
pub fn reset_tables() -> (v: Vec<&'static str>)
    ensures
        v@.map_values(|t: &str| t@) == reset_order(),
{
    let mut v: Vec<&'static str> = Vec::new();
    v.push("audit_logs");
    v.push("notifications");
    v.push("transactions");
    v.push("requests");
    v.push("allowances");
    v.push("wallets");
    v.push("paired_devices");
    v.push("family_members");
    v.push("families");
    v.push("profiles");
    v.push("sync_state");
    assert(v@.map_values(|t: &str| t@) =~= reset_order());
    v
}

/// The statements a device reset runs, in order: `DELETE FROM` each table of
/// `reset_order`.
pub fn reset_statements() -> (v: Vec<String>)
    ensures
        v@.len() == reset_order().len(),
        forall|i: int| 0 <= i < v@.len() ==> (#[trigger] v@[i])@ == "DELETE FROM "@ + reset_order()[i],
{
    let tables = reset_tables();
    let mut v: Vec<String> = Vec::new();
    let mut i: usize = 0;
    while i < tables.len()
        invariant
            i <= tables.len(),
            tables@.map_values(|t: &str| t@) == reset_order(),
            v@.len() == i,
            forall|k: int| 0 <= k < i ==> (#[trigger] v@[k])@ == "DELETE FROM "@ + reset_order()[k],
        decreases tables.len() - i,
    {
        let mut stmt = "DELETE FROM ".to_owned();
        stmt.append(tables[i]);
        proof {
            assert(tables@.map_values(|t: &str| t@)[i as int] == tables@[i as int]@);
        }
        v.push(stmt);
        i += 1;
    }
    v
}

/// The number of rows of each table after the tables in `tables` are emptied one after
/// the other; a table that the store does not have is left alone.
pub open spec fn emptied(rows: Map<Seq<char>, nat>, tables: Seq<Seq<char>>) -> Map<Seq<char>, nat>
    decreases tables.len(),
{
    if tables.len() == 0 {
        rows
    } else {
        let before = emptied(rows, tables.drop_last());
        if before.dom().contains(tables.last()) {
            before.insert(tables.last(), 0)
        } else {
            before
        }
    }
}

/// Emptying keeps the store's tables, empties those named and leaves the others as they were.
proof fn lemma_emptied(rows: Map<Seq<char>, nat>, tables: Seq<Seq<char>>)
    ensures
        emptied(rows, tables).dom() == rows.dom(),
        forall|t: Seq<char>|
            #[trigger] rows.dom().contains(t) ==> emptied(rows, tables)[t] == if tables.contains(t) {
                0
            } else {
                rows[t]
            },
    decreases tables.len(),
{
    if tables.len() > 0 {
        let init = tables.drop_last();
        lemma_emptied(rows, init);
        assert forall|t: Seq<char>| #[trigger] tables.contains(t) <==> init.contains(t) || t == tables.last() by {
            if tables.contains(t) {
                let k = choose|k: int| 0 <= k < tables.len() && tables[k] == t;
                if k < tables.len() - 1 {
                    assert(init[k] == t);
                }
            }
            if init.contains(t) {
                let k = choose|k: int| 0 <= k < init.len() && init[k] == t;
                assert(tables[k] == t);
            }
            if t == tables.last() {
                assert(tables[tables.len() - 1] == t);
            }
        }
        assert(emptied(rows, tables).dom() =~= rows.dom());
    }
}

/// A reset empties every table of a store made of the reset's tables, and a second reset
/// changes nothing more.
pub proof fn law_reset_empties_the_store(rows: Map<Seq<char>, nat>)
    requires
        forall|t: Seq<char>| #[trigger] rows.dom().contains(t) ==> reset_order().contains(t),
    ensures
        emptied(rows, reset_order()).dom() == rows.dom(),
        forall|t: Seq<char>| #[trigger] rows.dom().contains(t) ==> emptied(rows, reset_order())[t] == 0,
        emptied(emptied(rows, reset_order()), reset_order()) == emptied(rows, reset_order()),
{
    let once = emptied(rows, reset_order());
    lemma_emptied(rows, reset_order());
    lemma_emptied(once, reset_order());
    assert(emptied(once, reset_order()) =~= once);
}

} // verus!
