//! Decisions around the native save dialog.
//!
//! The dialog itself, and the write of the bytes, happen outside the
//! library.  Here stand the two decisions: what a dialog outcome means
//! (no chosen path is the user-cancelled error, and then nothing is
//! written, because no path is handed back), and what a finished write
//! reports.

use vstd::prelude::*;
use vstd::string::*;
use crate::report_view;

verus! {

/// What follows the dialog: no chosen path is the user-cancelled error;
/// a chosen path is handed on to the write step.
pub open spec fn save_plan_spec(choice: Option<Seq<char>>) -> Result<Seq<char>, Seq<char>> {
    match choice {
        None => Err("User cancelled file save dialog"@),
        Some(p) => Ok(p),
    }
}

/// The report of a finished write: success names the destination,
/// failure carries the operating-system error text.
pub open spec fn write_report_spec(
    path: Seq<char>,
    write_error: Option<Seq<char>>,
) -> Result<Seq<char>, Seq<char>> {
    match write_error {
        None => Ok("PDF saved successfully to: "@ + path),
        Some(e) => Err("Failed to write PDF file: "@ + e),
    }
}

/// Decide what follows the save dialog.  Only an `Ok` hands a path to
/// the caller, so a cancelled dialog leads to no write at all.
pub fn plan_save(choice: Option<String>) -> (r: Result<String, String>)
    ensures
        report_view(r) =~= save_plan_spec(choice.deep_view()),
{
    match choice {
        None => Err(String::from_str("User cancelled file save dialog")),
        Some(p) => Ok(p),
    }
}

/// Report the outcome of writing the bytes to the chosen path.
pub fn write_report(path: &str, write_error: Option<String>) -> (r: Result<String, String>)
    ensures
        report_view(r) =~= write_report_spec(path@, write_error.deep_view()),
{
    match write_error {
        None => Ok(String::from_str("PDF saved successfully to: ").concat(path)),
        Some(e) => Err(String::from_str("Failed to write PDF file: ").concat(e.as_str())),
    }
}

/// A dialog dismissed without a choice yields exactly the user-cancelled
/// error, and no path, so the write step never runs.
pub proof fn lemma_cancel_writes_nothing()
    ensures
        save_plan_spec(None) is Err,
        save_plan_spec(None) == Err::<Seq<char>, Seq<char>>("User cancelled file save dialog"@),
{
}

} // verus!
