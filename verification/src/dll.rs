//! What the patch library does when the loader notifies it.
use vstd::prelude::*;

verus! {

/// Loader notification: the library is being unloaded from the process.
pub const DLL_PROCESS_DETACH: u32 = 0;
/// Loader notification: the library has been loaded into the process.
pub const DLL_PROCESS_ATTACH: u32 = 1;

/// Whether the notification `reason` starts the patch thread.
pub open spec fn starts_thread_on(reason: u32) -> bool {
    reason == DLL_PROCESS_ATTACH
}

/// What the fall-damage hook does on the notification `reason`.
pub open spec fn hook_entry_on(reason: u32) -> HookEntry {
    if reason == DLL_PROCESS_ATTACH {
        HookEntry::Install
    } else if reason == DLL_PROCESS_DETACH {
        HookEntry::Remove
    } else {
        HookEntry::Ignore
    }
}

/// What the fall-damage library answers the loader on `reason`, given
/// whether installing the hook succeeded.
pub open spec fn hook_reply_on(reason: u32, installed: bool) -> bool {
    reason != DLL_PROCESS_ATTACH || installed
}

/// Whether a loader notification starts the thread that applies the
/// patches: only loading into the process does.
pub fn starts_patch_thread(reason: u32) -> (r: bool)
    ensures
        r == starts_thread_on(reason),
{
    reason == DLL_PROCESS_ATTACH
}

/// What the fall-damage hook does on a loader notification.
#[derive(PartialEq, Eq, Structural, Clone, Copy, Debug)]
pub enum HookEntry {
    /// Install the hook.
    Install,
    /// Release the stub and restore the hooked instruction.
    Remove,
    /// Nothing to do.
    Ignore,
}

/// The fall-damage hook's response to a loader notification.
pub fn hook_entry(reason: u32) -> (r: HookEntry)
    ensures
        r == hook_entry_on(reason),
{
    if reason == DLL_PROCESS_ATTACH {
        HookEntry::Install
    } else if reason == DLL_PROCESS_DETACH {
        HookEntry::Remove
    } else {
        HookEntry::Ignore
    }
}

/// What the fall-damage library answers the loader: it refuses to stay
/// loaded only when installing the hook on load failed.
pub fn hook_entry_reply(reason: u32, installed: bool) -> (r: bool)
    ensures
        r == hook_reply_on(reason, installed),
{
    match hook_entry(reason) {
        HookEntry::Install => installed,
        _ => true,
    }
}

/// The loader's notifications, as Windows numbers them: only loading into
/// the process (1) starts the patch thread or installs the hook, unloading
/// (0) removes the hook, every other notification is ignored, and the
/// library refuses to stay loaded only when installing on load failed.
pub proof fn lemma_loader_answers(reason: u32, installed: bool)
    ensures
        starts_thread_on(reason) <==> reason == 1,
        hook_entry_on(1) == HookEntry::Install,
        hook_entry_on(0) == HookEntry::Remove,
        reason > 1 ==> hook_entry_on(reason) == HookEntry::Ignore,
        !hook_reply_on(reason, installed) <==> (reason == 1 && !installed),
        hook_entry_on(reason) == HookEntry::Install <==> starts_thread_on(reason),
{
}

} // verus!
