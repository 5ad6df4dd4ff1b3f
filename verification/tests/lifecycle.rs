use ollama_lifecycle::chat::{build_chat_payload, chat_outcome, ChatError};
use ollama_lifecycle::flow::{
    flow_step, model_listed, model_name, FlowEvent, FlowGoal, FlowState, PullOutput,
};
use ollama_lifecycle::jsontext::extract_string_field;
use ollama_lifecycle::locator::{default_candidates, resolve_binary, PathProbe};
use ollama_lifecycle::savefile::{plan_save, write_report};
use ollama_lifecycle::supervisor::{stop_report, Supervisor};
use ollama_lifecycle::textscan::contains_bytes;

fn probe(path: &str, exists: bool) -> PathProbe {
    PathProbe { path: path.to_string(), exists }
}

#[test]
fn override_wins_over_everything() {
    let probes = vec![probe("/usr/local/bin/ollama", true)];
    let r = resolve_binary(
        Some("/custom/ollama".to_string()),
        Some("/from/path/ollama".to_string()),
        probes,
    );
    assert_eq!(r, Some("/custom/ollama".to_string()));
}

#[test]
fn empty_override_is_skipped() {
    let r = resolve_binary(
        Some(String::new()),
        Some("/from/path/ollama".to_string()),
        vec![probe("/usr/bin/ollama", true)],
    );
    assert_eq!(r, Some("/from/path/ollama".to_string()));
}

#[test]
fn path_lookup_used_when_no_override() {
    let r = resolve_binary(None, Some("/from/path/ollama".to_string()), vec![]);
    assert_eq!(r, Some("/from/path/ollama".to_string()));
}

#[test]
fn first_existing_candidate_wins() {
    let probes = vec![
        probe("/usr/local/bin/ollama", false),
        probe("/opt/homebrew/bin/ollama", true),
        probe("/usr/bin/ollama", true),
    ];
    let r = resolve_binary(None, None, probes);
    assert_eq!(r, Some("/opt/homebrew/bin/ollama".to_string()));
}

#[test]
fn nothing_found_resolves_to_none() {
    let probes = vec![probe("/usr/local/bin/ollama", false), probe("/bin/ollama", false)];
    assert_eq!(resolve_binary(None, Some(String::new()), probes), None);
}

#[test]
fn candidate_list_is_the_wellknown_one() {
    let c = default_candidates();
    assert_eq!(
        c,
        vec![
            "/usr/local/bin/ollama".to_string(),
            "/opt/homebrew/bin/ollama".to_string(),
            "/usr/bin/ollama".to_string(),
            "/bin/ollama".to_string(),
        ]
    );
}

#[test]
fn substring_search_finds_and_misses() {
    assert!(contains_bytes(b"NAME            ID\ngpt-oss:20b  abc", b"gpt-oss:20b"));
    assert!(!contains_bytes(b"NAME\nllama2:7b", b"gpt-oss:20b"));
    assert!(contains_bytes(b"anything", b""));
    assert!(!contains_bytes(b"", b"x"));
}

#[test]
fn model_name_is_the_configured_one() {
    assert_eq!(model_name(), b"gpt-oss:20b".to_vec());
}

#[test]
fn model_present_in_list_output() {
    let out = b"NAME            ID      SIZE\ngpt-oss:20b     abc123  13 GB\n";
    assert!(model_listed(out, &model_name()));
}

#[test]
fn listing_with_model_present_skips_pull() {
    let s = flow_step(
        FlowGoal::EnsureOnly,
        FlowState::Listing { bin: "ollama".to_string() },
        FlowEvent::Listed(Ok(b"NAME\ngpt-oss:20b latest\n".to_vec())),
    );
    match s {
        FlowState::Finished { outcome } => {
            assert_eq!(outcome, Ok("Model already available".to_string()));
        },
        _ => panic!("expected the flow to finish without pulling"),
    }
}

#[test]
fn listing_without_model_moves_to_pull() {
    let s = flow_step(
        FlowGoal::EnsureOnly,
        FlowState::Listing { bin: "ollama".to_string() },
        FlowEvent::Listed(Ok(b"NAME\nllama2:7b latest\n".to_vec())),
    );
    match s {
        FlowState::Pulling { bin } => assert_eq!(bin, "ollama".to_string()),
        _ => panic!("expected the flow to move to pulling"),
    }
}

#[test]
fn resolve_failure_reports_install_hint() {
    let s = flow_step(FlowGoal::EnsureOnly, FlowState::Resolving, FlowEvent::Resolved(None));
    match s {
        FlowState::Finished { outcome } => assert_eq!(
            outcome,
            Err("Ollama is not installed or not found in PATH. Install from https://ollama.com/download or set OLLAMA_PATH.".to_string())
        ),
        _ => panic!("expected the flow to finish"),
    }
}

#[test]
fn version_failure_reports_not_installed() {
    let s = flow_step(
        FlowGoal::EnsureOnly,
        FlowState::CheckingVersion { bin: "ollama".to_string() },
        FlowEvent::VersionChecked(false),
    );
    match s {
        FlowState::Finished { outcome } => assert_eq!(
            outcome,
            Err("Ollama is not installed. Please install Ollama from https://ollama.com/download and try again.".to_string())
        ),
        _ => panic!("expected the flow to finish"),
    }
}

#[test]
fn list_error_is_surfaced() {
    let s = flow_step(
        FlowGoal::EnsureOnly,
        FlowState::Listing { bin: "ollama".to_string() },
        FlowEvent::Listed(Err("no such file".to_string())),
    );
    match s {
        FlowState::Finished { outcome } => {
            assert_eq!(outcome, Err("Failed to list models: no such file".to_string()));
        },
        _ => panic!("expected the flow to finish"),
    }
}

#[test]
fn pull_spawn_error_is_surfaced() {
    let s = flow_step(
        FlowGoal::EnsureOnly,
        FlowState::Pulling { bin: "ollama".to_string() },
        FlowEvent::Pulled(Err("spawn failed".to_string())),
    );
    match s {
        FlowState::Finished { outcome } => {
            assert_eq!(outcome, Err("Failed to download model: spawn failed".to_string()));
        },
        _ => panic!("expected the flow to finish"),
    }
}

#[test]
fn pull_failure_surfaces_stderr() {
    let s = flow_step(
        FlowGoal::EnsureOnly,
        FlowState::Pulling { bin: "ollama".to_string() },
        FlowEvent::Pulled(Ok(PullOutput { success: false, stderr: "no space left".to_string() })),
    );
    match s {
        FlowState::Finished { outcome } => {
            assert_eq!(outcome, Err("Failed to download model: no space left".to_string()));
        },
        _ => panic!("expected the flow to finish"),
    }
}

#[test]
fn absent_model_pulled_once_end_to_end() {
    let s1 = flow_step(
        FlowGoal::EnsureOnly,
        FlowState::Resolving,
        FlowEvent::Resolved(Some("/usr/bin/ollama".to_string())),
    );
    let s2 = match s1 {
        FlowState::CheckingVersion { bin } => {
            assert_eq!(bin, "/usr/bin/ollama".to_string());
            flow_step(
                FlowGoal::EnsureOnly,
                FlowState::CheckingVersion { bin },
                FlowEvent::VersionChecked(true),
            )
        },
        _ => panic!("expected a version check after resolution"),
    };
    let s3 = match s2 {
        FlowState::Listing { bin } => flow_step(
            FlowGoal::EnsureOnly,
            FlowState::Listing { bin },
            FlowEvent::Listed(Ok(b"NAME\nllama2:7b latest\n".to_vec())),
        ),
        _ => panic!("expected a listing after the version check"),
    };
    let s4 = match s3 {
        FlowState::Pulling { bin } => {
            assert_eq!(bin, "/usr/bin/ollama".to_string());
            flow_step(
                FlowGoal::EnsureOnly,
                FlowState::Pulling { bin },
                FlowEvent::Pulled(Ok(PullOutput { success: true, stderr: String::new() })),
            )
        },
        _ => panic!("expected a pull for the absent model"),
    };
    match s4 {
        FlowState::Finished { outcome } => {
            assert_eq!(outcome, Ok("Model downloaded successfully".to_string()));
        },
        _ => panic!("expected the flow to finish after one pull"),
    }
}

#[test]
fn start_goal_reaches_serve() {
    let s = flow_step(
        FlowGoal::StartServer,
        FlowState::Listing { bin: "ollama".to_string() },
        FlowEvent::Listed(Ok(b"gpt-oss:20b\n".to_vec())),
    );
    let s2 = match s {
        FlowState::ResolvingServe => flow_step(
            FlowGoal::StartServer,
            FlowState::ResolvingServe,
            FlowEvent::Resolved(Some("/usr/bin/ollama".to_string())),
        ),
        _ => panic!("expected a second resolution before serving"),
    };
    match s2 {
        FlowState::ReadyToServe { bin } => assert_eq!(bin, "/usr/bin/ollama".to_string()),
        _ => panic!("expected the flow to be ready to serve"),
    }
}

#[test]
fn download_goes_straight_to_pull() {
    let s = ollama_lifecycle::flow::download_start(Some("/usr/bin/ollama".to_string()));
    match s {
        FlowState::Pulling { bin } => assert_eq!(bin, "/usr/bin/ollama".to_string()),
        _ => panic!("expected the download to pull at once"),
    }
}

#[test]
fn download_without_binary_reports_install_hint() {
    let s = ollama_lifecycle::flow::download_start(None);
    match s {
        FlowState::Finished { outcome } => assert_eq!(
            outcome,
            Err("Ollama is not installed or not found in PATH. Install from https://ollama.com/download or set OLLAMA_PATH.".to_string())
        ),
        _ => panic!("expected the download to finish"),
    }
}

#[test]
fn stop_without_handle_is_success() {
    let mut sup = Supervisor::new();
    assert!(!sup.is_running());
    let taken = sup.stop();
    assert_eq!(taken, None);
    assert!(!sup.is_running());
    assert_eq!(stop_report(false, None), Ok("Ollama not running".to_string()));
}

#[test]
fn start_then_stop_cycles_the_slot() {
    let mut sup = Supervisor::new();
    let started = sup.record_spawn(Ok(7));
    assert_eq!(started, Ok("Ollama started successfully".to_string()));
    assert!(sup.is_running());
    let taken = sup.stop();
    assert_eq!(taken, Some(7));
    assert!(!sup.is_running());
    assert_eq!(stop_report(true, None), Ok("Ollama stopped".to_string()));
}

#[test]
fn spawn_failure_stores_nothing() {
    let mut sup = Supervisor::new();
    let r = sup.record_spawn(Err("permission denied".to_string()));
    assert_eq!(r, Err("Failed to start Ollama: permission denied".to_string()));
    assert!(!sup.is_running());
}

#[test]
fn kill_failure_is_surfaced() {
    assert_eq!(
        stop_report(true, Some("no such process".to_string())),
        Err("Failed to stop Ollama: no such process".to_string())
    );
}

#[test]
fn response_field_extracted() {
    let r = chat_outcome(true, b"{\"response\": \"hello\"}");
    assert_eq!(r, Ok(b"hello".to_vec()));
}

#[test]
fn empty_object_is_missing_field() {
    let r = chat_outcome(true, b"{}");
    assert!(matches!(r, Err(ChatError::MissingField)));
}

#[test]
fn http_failure_carries_raw_body() {
    let r = chat_outcome(false, b"model not loaded");
    match r {
        Err(ChatError::HttpFailure(body)) => assert_eq!(body, b"model not loaded".to_vec()),
        _ => panic!("expected the raw body as the error"),
    }
}

#[test]
fn response_escapes_are_unescaped() {
    let r = chat_outcome(true, b"{\"response\": \"say \\\"hi\\\"\\n\"}");
    assert_eq!(r, Ok(b"say \"hi\"\n".to_vec()));
}

#[test]
fn non_string_response_is_missing_field() {
    let r = chat_outcome(true, b"{\"response\": 5}");
    assert!(matches!(r, Err(ChatError::MissingField)));
}

#[test]
fn unterminated_response_is_missing_field() {
    let r = chat_outcome(true, b"{\"response\": \"oops");
    assert!(matches!(r, Err(ChatError::MissingField)));
}

#[test]
fn field_found_with_whitespace_and_other_keys() {
    let body = b"{\"model\": \"gpt-oss:20b\",\n  \"response\" :\t\"ok then\", \"done\": true}";
    assert_eq!(extract_string_field(body, b"response"), Some(b"ok then".to_vec()));
    assert_eq!(extract_string_field(body, b"missing"), None);
}

#[test]
fn payload_holds_model_and_prompt_escaped() {
    let p = build_chat_payload(b"gpt-oss:20b", b"say \"hi\"\nplease \\ now");
    assert_eq!(
        p,
        b"{\"model\":\"gpt-oss:20b\",\"prompt\":\"say \\\"hi\\\"\\nplease \\\\ now\"}".to_vec()
    );
}

#[test]
fn payload_fields_read_back() {
    let p = build_chat_payload(b"gpt-oss:20b", b"line one\nsay \"hi\"");
    assert_eq!(extract_string_field(&p, b"model"), Some(b"gpt-oss:20b".to_vec()));
    assert_eq!(extract_string_field(&p, b"prompt"), Some(b"line one\nsay \"hi\"".to_vec()));
}

#[test]
fn cancel_yields_user_cancelled_and_no_path() {
    assert_eq!(plan_save(None), Err("User cancelled file save dialog".to_string()));
}

#[test]
fn chosen_path_is_handed_back() {
    assert_eq!(plan_save(Some("/tmp/out.pdf".to_string())), Ok("/tmp/out.pdf".to_string()));
}

#[test]
fn write_outcome_is_reported() {
    assert_eq!(
        write_report("/tmp/out.pdf", None),
        Ok("PDF saved successfully to: /tmp/out.pdf".to_string())
    );
    assert_eq!(
        write_report("/tmp/out.pdf", Some("permission denied".to_string())),
        Err("Failed to write PDF file: permission denied".to_string())
    );
}
