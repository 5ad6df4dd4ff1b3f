//! Lifecycle supervision for a locally installed model-serving runtime.
//!
//! The library holds the decision logic of a small desktop helper that
//! locates the runtime binary, checks that a named model is present
//! (downloading it when absent), starts and stops the serving process,
//! forwards a chat prompt to the local endpoint, and reports the outcome
//! of saving generated bytes to a user-chosen path.  All operating-system
//! work (spawning processes, reading the environment, HTTP, dialogs,
//! file writes) happens outside the library; the functions here take the
//! outcomes of those steps as plain values and decide what follows.

use vstd::prelude::*;

pub mod chat;
pub mod flow;
pub mod jsontext;
pub mod locator;
pub mod savefile;
pub mod supervisor;
pub mod textscan;

verus! {

/// The text carried by a report, on both the success and the failure
/// side: every operation of the library reports a human-readable string.
pub open spec fn report_view(r: Result<String, String>) -> Result<Seq<char>, Seq<char>> {
    match r {
        Ok(s) => Ok(s@),
        Err(s) => Err(s@),
    }
}

} // verus!
