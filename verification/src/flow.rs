//! The ensure/start flow: which subprocess step runs next, and what the
//! operation finally reports.
//!
//! The caller performs the external steps — resolving the binary,
//! running `--version`, `list`, `pull` and spawning `serve` — and feeds
//! each outcome back as an event.  The decisions between the steps all
//! stand here: a missing binary ends the flow with the not-found report;
//! a `list` output showing the model skips the pull; a pull is judged by
//! its exit status, with the captured standard error surfaced verbatim.

use vstd::prelude::*;
use vstd::string::*;
use crate::report_view;
use crate::textscan::contains_pattern;

verus! {

/// The configured model name, as the bytes other texts are searched and
/// built with.
pub open spec fn model_name_spec() -> Seq<u8> {
    ("gpt-oss:20b").spec_bytes()
}

/// The configured model: the one name the flow ensures and downloads.
pub fn model_name() -> (r: Vec<u8>)
    ensures
        r@ == model_name_spec(),
{
    ("gpt-oss:20b").as_bytes_vec()
}

/// Whether the captured `list` output shows the model: a raw substring
/// check, by design (a name that is a prefix of another can collide).
pub fn model_listed(list_output: &[u8], model: &[u8]) -> (r: bool)
    ensures
        r == contains_pattern(list_output@, model@),
{
    crate::textscan::contains_bytes(list_output, model)
}

/// The report when no binary could be resolved.
pub open spec fn not_found_text() -> Seq<char> {
    "Ollama is not installed or not found in PATH. Install from https://ollama.com/download or set OLLAMA_PATH."@
}

/// The report when the resolved binary would not run `--version`.
pub open spec fn not_installed_text() -> Seq<char> {
    "Ollama is not installed. Please install Ollama from https://ollama.com/download and try again."@
}

/// What the flow is after: only the ensure report, or a binary to start
/// the server with once the model is ensured.
pub enum FlowGoal {
    EnsureOnly,
    StartServer,
}

/// Where the flow stands; each non-terminal state names the external
/// step whose outcome is awaited.
pub enum FlowState {
    /// The binary is being resolved.
    Resolving,
    /// `--version` is being run to confirm the binary runs at all.
    CheckingVersion { bin: String },
    /// `list` is being run to look for the model.
    Listing { bin: String },
    /// `pull` is being run to download the model.
    Pulling { bin: String },
    /// The model is ensured; the binary is resolved once more for
    /// `serve` (nothing is cached between resolutions).
    ResolvingServe,
    /// Terminal: the flow's report.
    Finished { outcome: Result<String, String> },
    /// Terminal: the server may be spawned with this binary.
    ReadyToServe { bin: String },
}

/// The outcome of a finished `pull`.
pub struct PullOutput {
    /// Whether the process exited successfully.
    pub success: bool,
    /// The captured standard error, surfaced verbatim on failure.
    pub stderr: String,
}

/// The outcome of one external step, fed back into the flow.
pub enum FlowEvent {
    /// The resolution's result.
    Resolved(Option<String>),
    /// Whether `--version` ran at all.
    VersionChecked(bool),
    /// The captured standard output of `list`, or the error that kept
    /// it from running.
    Listed(Result<Vec<u8>, String>),
    /// The outcome of `pull`, or the error that kept it from running.
    Pulled(Result<PullOutput, String>),
}

/// Which event a state awaits; terminal states await none.
pub open spec fn event_fits(state: FlowState, event: FlowEvent) -> bool {
    match state {
        FlowState::Resolving => event is Resolved,
        FlowState::CheckingVersion { .. } => event is VersionChecked,
        FlowState::Listing { .. } => event is Listed,
        FlowState::Pulling { .. } => event is Pulled,
        FlowState::ResolvingServe => event is Resolved,
        FlowState::Finished { .. } => false,
        FlowState::ReadyToServe { .. } => false,
    }
}

/// The transition relation of the flow: what the next state is, for
/// each awaited event.  `r` is the state after the step.
pub open spec fn flow_step_rel(goal: FlowGoal, state: FlowState, event: FlowEvent, r: FlowState) -> bool {
    match (state, event) {
        (FlowState::Resolving, FlowEvent::Resolved(None)) => r matches FlowState::Finished {
            outcome } && report_view(outcome) =~= Err(not_found_text()),
        (FlowState::Resolving, FlowEvent::Resolved(Some(b))) => r
            matches FlowState::CheckingVersion { bin } && bin@ == b@,
        (FlowState::CheckingVersion { .. }, FlowEvent::VersionChecked(false)) => r
            matches FlowState::Finished { outcome } && report_view(outcome) =~= Err(
            not_installed_text(),
        ),
        (FlowState::CheckingVersion { bin }, FlowEvent::VersionChecked(true)) => r
            matches FlowState::Listing { bin: b2 } && b2@ == bin@,
        (FlowState::Listing { .. }, FlowEvent::Listed(Err(e))) => r matches FlowState::Finished {
            outcome } && report_view(outcome) =~= Err("Failed to list models: "@ + e@),
        (FlowState::Listing { bin }, FlowEvent::Listed(Ok(out))) => if contains_pattern(
            out@,
            model_name_spec(),
        ) {
            match goal {
                FlowGoal::EnsureOnly => r matches FlowState::Finished { outcome } && report_view(
                    outcome,
                ) =~= Ok("Model already available"@),
                FlowGoal::StartServer => r is ResolvingServe,
            }
        } else {
            r matches FlowState::Pulling { bin: b2 } && b2@ == bin@
        },
        (FlowState::Pulling { .. }, FlowEvent::Pulled(Err(e))) => r matches FlowState::Finished {
            outcome } && report_view(outcome) =~= Err("Failed to download model: "@ + e@),
        (FlowState::Pulling { .. }, FlowEvent::Pulled(Ok(po))) => if po.success {
            match goal {
                FlowGoal::EnsureOnly => r matches FlowState::Finished { outcome } && report_view(
                    outcome,
                ) =~= Ok("Model downloaded successfully"@),
                FlowGoal::StartServer => r is ResolvingServe,
            }
        } else {
            r matches FlowState::Finished { outcome } && report_view(outcome) =~= Err(
                "Failed to download model: "@ + po.stderr@,
            )
        },
        (FlowState::ResolvingServe, FlowEvent::Resolved(None)) => r matches FlowState::Finished {
            outcome } && report_view(outcome) =~= Err(not_found_text()),
        (FlowState::ResolvingServe, FlowEvent::Resolved(Some(b))) => r
            matches FlowState::ReadyToServe { bin } && bin@ == b@,
        _ => true,
    }
}

/// Begin the download operation: the resolved binary goes straight to
/// pulling the model; a failed resolution is the not-found report.
pub fn download_start(resolved: Option<String>) -> (r: FlowState)
    ensures
        resolved is None ==> (r matches FlowState::Finished { outcome } && report_view(outcome)
            =~= Err(not_found_text())),
        resolved matches Some(b) ==> (r matches FlowState::Pulling { bin } && bin@ == b@),
{
    match resolved {
        None => FlowState::Finished {
            outcome: Err(
                String::from_str(
                    "Ollama is not installed or not found in PATH. Install from https://ollama.com/download or set OLLAMA_PATH.",
                ),
            ),
        },
        Some(b) => FlowState::Pulling { bin: b },
    }
}

/// A `list` output showing the model finishes or moves on: the step
/// never leads to the pulling state, and under the ensure goal it
/// reports the model as already available.
pub proof fn lemma_present_model_skips_pull(
    goal: FlowGoal,
    state: FlowState,
    event: FlowEvent,
    r: FlowState,
)
    requires
        state is Listing,
        event matches FlowEvent::Listed(Ok(out)) && contains_pattern(out@, model_name_spec()),
        flow_step_rel(goal, state, event, r),
    ensures
        !(r is Pulling),
        goal is EnsureOnly ==> (r matches FlowState::Finished { outcome } && outcome is Ok),
{
}

/// A flow that has finished, or stands ready to serve, awaits no
/// further event: no later step — and so no second pull — can follow.
pub proof fn lemma_terminal_awaits_nothing(state: FlowState, event: FlowEvent)
    requires
        state is Finished || state is ReadyToServe,
    ensures
        !event_fits(state, event),
{
}

/// Advance the flow by one external outcome.
pub fn flow_step(goal: FlowGoal, state: FlowState, event: FlowEvent) -> (r: FlowState)
    requires
        event_fits(state, event),
    ensures
        flow_step_rel(goal, state, event, r),
{
    match state {
        FlowState::Resolving => match event {
            FlowEvent::Resolved(None) => FlowState::Finished {
                outcome: Err(
                    String::from_str(
                        "Ollama is not installed or not found in PATH. Install from https://ollama.com/download or set OLLAMA_PATH.",
                    ),
                ),
            },
            FlowEvent::Resolved(Some(b)) => FlowState::CheckingVersion { bin: b },
            _ => vstd::pervasive::unreached(),
        },
        FlowState::CheckingVersion { bin } => match event {
            FlowEvent::VersionChecked(false) => FlowState::Finished {
                outcome: Err(
                    String::from_str(
                        "Ollama is not installed. Please install Ollama from https://ollama.com/download and try again.",
                    ),
                ),
            },
            FlowEvent::VersionChecked(true) => FlowState::Listing { bin },
            _ => vstd::pervasive::unreached(),
        },
        FlowState::Listing { bin } => match event {
            FlowEvent::Listed(Err(e)) => FlowState::Finished {
                outcome: Err(String::from_str("Failed to list models: ").concat(e.as_str())),
            },
            FlowEvent::Listed(Ok(out)) => {
                let model = model_name();
                if model_listed(out.as_slice(), model.as_slice()) {
                    match goal {
                        FlowGoal::EnsureOnly => FlowState::Finished {
                            outcome: Ok(String::from_str("Model already available")),
                        },
                        FlowGoal::StartServer => FlowState::ResolvingServe,
                    }
                } else {
                    FlowState::Pulling { bin }
                }
            },
            _ => vstd::pervasive::unreached(),
        },
        FlowState::Pulling { bin } => match event {
            FlowEvent::Pulled(Err(e)) => FlowState::Finished {
                outcome: Err(String::from_str("Failed to download model: ").concat(e.as_str())),
            },
            FlowEvent::Pulled(Ok(po)) => {
                if po.success {
                    match goal {
                        FlowGoal::EnsureOnly => FlowState::Finished {
                            outcome: Ok(String::from_str("Model downloaded successfully")),
                        },
                        FlowGoal::StartServer => FlowState::ResolvingServe,
                    }
                } else {
                    FlowState::Finished {
                        outcome: Err(
                            String::from_str("Failed to download model: ").concat(
                                po.stderr.as_str(),
                            ),
                        ),
                    }
                }
            },
            _ => vstd::pervasive::unreached(),
        },
        FlowState::ResolvingServe => match event {
            FlowEvent::Resolved(None) => FlowState::Finished {
                outcome: Err(
                    String::from_str(
                        "Ollama is not installed or not found in PATH. Install from https://ollama.com/download or set OLLAMA_PATH.",
                    ),
                ),
            },
            FlowEvent::Resolved(Some(b)) => FlowState::ReadyToServe { bin: b },
            _ => vstd::pervasive::unreached(),
        },
        FlowState::Finished { .. } => vstd::pervasive::unreached(),
        FlowState::ReadyToServe { .. } => vstd::pervasive::unreached(),
    }
}

} // verus!
