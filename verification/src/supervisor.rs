//! The handle slot: at most one running server process is tracked.
//!
//! The slot stores an opaque identifier for the child process; the caller
//! keeps the real operating-system handle beside it and acts on the
//! identifiers this module hands back.

use vstd::prelude::*;
use vstd::string::*;
use crate::report_view;

verus! {

/// The slot after a successful start: the new handle replaces whatever
/// was stored.
pub open spec fn slot_after_start(slot: Option<u64>, id: u64) -> Option<u64> {
    Some(id)
}

/// Stopping empties the slot and takes what was stored:
/// the pair is (slot afterwards, handle taken).
pub open spec fn slot_after_stop(slot: Option<u64>) -> (Option<u64>, Option<u64>) {
    (None, slot)
}

/// Owns the single optional process handle.
pub struct Supervisor {
    handle: Option<u64>,
}

impl Supervisor {
    /// What the slot currently stores.
    pub closed spec fn slot(&self) -> Option<u64> {
        self.handle
    }

    /// A fresh supervisor tracks nothing.
    pub fn new() -> (r: Supervisor)
        ensures
            r.slot() is None,
    {
        Supervisor { handle: None }
    }

    /// Whether a handle is currently stored.
    pub fn is_running(&self) -> (r: bool)
        ensures
            r == (self.slot() is Some),
    {
        match self.handle {
            Some(_) => true,
            None => false,
        }
    }

    /// Record the outcome of spawning the server and report it as the
    /// start operation does: a spawned child is stored and success
    /// reported; a spawn failure leaves the slot as it was and surfaces
    /// the operating-system error.
    pub fn record_spawn(&mut self, spawn: Result<u64, String>) -> (r: Result<String, String>)
        ensures
            spawn matches Ok(id) ==> (final(self).slot() == slot_after_start(
                old(self).slot(),
                id,
            ) && report_view(r) =~= Ok("Ollama started successfully"@)),
            spawn matches Err(e) ==> (final(self).slot() == old(self).slot() && report_view(r)
                =~= Err("Failed to start Ollama: "@ + e@)),
    {
        match spawn {
            Ok(id) => {
                self.handle = Some(id);
                Ok(String::from_str("Ollama started successfully"))
            },
            Err(e) => Err(String::from_str("Failed to start Ollama: ").concat(e.as_str())),
        }
    }

    /// Take ownership of the stored handle, leaving the slot empty.
    /// Returns the handle that was stored, if any; stopping with an
    /// empty slot is a no-op.
    pub fn stop(&mut self) -> (r: Option<u64>)
        ensures
            final(self).slot() == slot_after_stop(old(self).slot()).0,
            r == slot_after_stop(old(self).slot()).1,
    {
        let taken = self.handle.take();
        taken
    }
}

/// The stop operation's report.  Nothing running is a success, not an
/// error; a stored handle that was signalled reports stopped, or
/// surfaces the error the terminate signal met.  `kill_error` is read
/// only when a handle had been stored.
pub fn stop_report(had_handle: bool, kill_error: Option<String>) -> (r: Result<String, String>)
    ensures
        !had_handle ==> report_view(r) =~= Ok("Ollama not running"@),
        had_handle && kill_error is None ==> report_view(r) =~= Ok("Ollama stopped"@),
        kill_error matches Some(e) ==> had_handle ==> report_view(r) =~= Err(
            "Failed to stop Ollama: "@ + e@,
        ),
{
    if !had_handle {
        Ok(String::from_str("Ollama not running"))
    } else {
        match kill_error {
            None => Ok(String::from_str("Ollama stopped")),
            Some(e) => Err(String::from_str("Failed to stop Ollama: ").concat(e.as_str())),
        }
    }
}

/// Stopping when nothing is running leaves the slot empty and takes no
/// handle, so no terminate signal is ever issued for it.
pub proof fn lemma_stop_idempotent()
    ensures
        slot_after_stop(None).0 is None,
        slot_after_stop(None).1 is None,
{
}

/// After a start the slot is populated with the new handle; the stop that
/// follows empties it and takes exactly that handle.
pub proof fn lemma_start_then_stop(slot: Option<u64>, id: u64)
    ensures
        slot_after_start(slot, id) is Some,
        slot_after_stop(slot_after_start(slot, id)).0 is None,
        slot_after_stop(slot_after_start(slot, id)).1 == Some(id),
{
}

} // verus!
