//! Run-at-startup registration rules.
//!
//! The startup store maps an application name to the executable it launches.
//! Toggling the option on writes one entry under this application's name with
//! the current executable's path; toggling it off deletes that entry. The
//! caller that can reach the store performs the write or the delete this
//! module decides on, and hands back what it read for the check.

use vstd::prelude::*;

verus! {

/// What a toggle asks the startup store to do.
pub enum StartupAction {
    /// Write the entry `name -> exe_path`.
    SetEntry { name: String, exe_path: String },
    /// Delete the entry under `name`, if any.
    RemoveEntry { name: String },
}

/// The startup store as a map from entry names to launch paths.
pub open spec fn apply_startup_action(
    store: Map<Seq<char>, Seq<char>>,
    action: StartupAction,
) -> Map<Seq<char>, Seq<char>> {
    match action {
        StartupAction::SetEntry { name, exe_path } => store.insert(name@, exe_path@),
        StartupAction::RemoveEntry { name } => store.remove(name@),
    }
}

/// The entry name this application registers under.
pub fn startup_entry_name() -> (r: String)
    ensures
        r@ == "WallpaperUpdater"@,
{
    String::from_str("WallpaperUpdater")
}

/// Decides what the toggle does to the startup store: enabling registers the
/// given executable under this application's name, disabling removes that
/// name's entry.
pub fn startup_registration_action(enable: bool, exe_path: String) -> (r: StartupAction)
    ensures
        enable ==> (r matches StartupAction::SetEntry { name, exe_path: p } && name@
            == "WallpaperUpdater"@ && p == exe_path),
        !enable ==> (r matches StartupAction::RemoveEntry { name } && name@
            == "WallpaperUpdater"@),
{
    if enable {
        StartupAction::SetEntry { name: startup_entry_name(), exe_path }
    } else {
        StartupAction::RemoveEntry { name: startup_entry_name() }
    }
}

/// Whether a value read back from the startup store means "registered": there
/// is an entry and it names exactly the current executable.
pub fn startup_is_registered(stored: &Option<String>, exe_path: &String) -> (r: bool)
    ensures
        r == (stored matches Some(v) && v@ == exe_path@),
{
    match stored {
        Some(v) => v.eq(exe_path),
        None => false,
    }
}

/// Law: toggling run-at-startup on and then off leaves no stray entry — the
/// application's name is gone from the store, and every other entry stands as
/// it did before the toggles.
pub proof fn lemma_toggle_on_then_off_leaves_no_entry(
    store: Map<Seq<char>, Seq<char>>,
    name: String,
    exe_path: String,
)
    ensures
        ({
            let after = apply_startup_action(
                apply_startup_action(store, StartupAction::SetEntry { name, exe_path }),
                StartupAction::RemoveEntry { name },
            );
            &&& !after.contains_key(name@)
            &&& forall|k: Seq<char>|
                store.contains_key(k) && k != name@ ==> after.contains_key(k) && after[k]
                    == store[k]
            &&& forall|k: Seq<char>| after.contains_key(k) ==> store.contains_key(k)
        }),
{
}

} // verus!
