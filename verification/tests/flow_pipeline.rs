use jira_todo::flow::on_output;
use jira_todo::flow::start;
use jira_todo::flow::Action;
use jira_todo::flow::Step;
use jira_todo::gateway::RunOutput;

fn run(spawned: bool, exit_success: bool, stdout: &str, stderr: &str) -> RunOutput {
    RunOutput {
        spawned,
        exit_success,
        stdout: stdout.to_string(),
        stderr: stderr.to_string(),
    }
}

fn run_ok() -> RunOutput {
    run(true, true, "", "")
}

fn auth_ok() -> RunOutput {
    run(true, true, "Authenticated as someone", "")
}

#[test]
fn missing_summary_is_a_usage_error_after_the_probes() {
    // The summary requirement is only judged once the tool is known to be
    // present and authenticated.
    let (step, acts) = start(None, None);
    assert!(matches!(step, Step::AwaitVersion { .. }));
    assert!(matches!(&acts[0], Action::Run { .. }));
    let (step, _) = on_output(step, run_ok());
    assert!(matches!(step, Step::AwaitAuth { .. }));
    let (step, acts) = on_output(step, auth_ok());
    assert!(matches!(step, Step::Finished { exit_code: 1 }));
    assert_eq!(acts.len(), 7);
    match &acts[0] {
        Action::PrintErrLine { text } => assert_eq!(text, "Error: SUMMARY is required"),
        other => panic!("unexpected action: {:?}", action_name(other)),
    }
    match &acts[1] {
        Action::PrintErrLine { text } => assert_eq!(text, "Usage: todo [PROJECT] SUMMARY"),
        other => panic!("unexpected action: {:?}", action_name(other)),
    }
    assert!(matches!(acts[6], Action::Finish { exit_code: 1 }));
}

#[test]
fn missing_tool_is_reported_before_a_missing_summary() {
    // With the tool absent and no summary given, the availability failure
    // path is taken: the installation help, not the usage message.
    let (step, _) = start(None, None);
    let (step, acts) = on_output(step, run(false, false, "", "no such file"));
    assert!(matches!(step, Step::Finished { exit_code: 1 }));
    match &acts[0] {
        Action::PrintErrLine { text } => {
            assert_eq!(text, "Error: acli is not installed or not in PATH")
        }
        other => panic!("unexpected action: {:?}", action_name(other)),
    }
    assert!(matches!(acts[1], Action::ShowInstallHelp));
}

#[test]
fn project_defaults_to_ms() {
    let (step, acts) = start(None, Some("fix it".to_string()));
    match step {
        Step::AwaitVersion { project, summary } => {
            assert_eq!(project, "MS");
            assert_eq!(summary, Some("fix it".to_string()));
        }
        _ => panic!("expected the availability probe first"),
    }
    assert_eq!(acts.len(), 1);
    match &acts[0] {
        Action::Run { args } => assert_eq!(args, &vec!["--version".to_string()]),
        other => panic!("unexpected action: {:?}", action_name(other)),
    }
}

#[test]
fn explicit_project_is_kept() {
    let (step, _) = start(Some("AA".to_string()), Some("epic".to_string()));
    match step {
        Step::AwaitVersion { project, .. } => assert_eq!(project, "AA"),
        _ => panic!("expected the availability probe first"),
    }
}

#[test]
fn spawn_failure_takes_availability_path_first() {
    let (step, _) = start(None, Some("x".to_string()));
    // The tool cannot be spawned: the availability probe fails, the run ends
    // with the installation help, and authentication is never probed.
    let (step, acts) = on_output(step, run(false, false, "", "no such file"));
    assert!(matches!(step, Step::Finished { exit_code: 1 }));
    assert_eq!(acts.len(), 3);
    match &acts[0] {
        Action::PrintErrLine { text } => {
            assert_eq!(text, "Error: acli is not installed or not in PATH")
        }
        other => panic!("unexpected action: {:?}", action_name(other)),
    }
    assert!(matches!(acts[1], Action::ShowInstallHelp));
    assert!(matches!(acts[2], Action::Finish { exit_code: 1 }));
}

#[test]
fn unauthenticated_probe_stops_the_run() {
    let (step, _) = start(None, Some("x".to_string()));
    let (step, _) = on_output(step, run_ok());
    let (step, acts) = on_output(step, run(true, true, "not logged in", ""));
    assert!(matches!(step, Step::Finished { exit_code: 1 }));
    assert_eq!(acts.len(), 3);
    match &acts[0] {
        Action::PrintErrLine { text } => assert_eq!(text, "Error: acli is not authenticated"),
        other => panic!("unexpected action: {:?}", action_name(other)),
    }
    match &acts[1] {
        Action::PrintErrLine { text } => assert_eq!(text, "Please run: acli jira auth login --web"),
        other => panic!("unexpected action: {:?}", action_name(other)),
    }
    assert!(matches!(acts[2], Action::Finish { exit_code: 1 }));
}

#[test]
fn authentication_ignores_exit_status_of_probe() {
    let (step, _) = start(None, Some("x".to_string()));
    let (step, acts) = on_output(step, run_ok());
    assert_eq!(acts.len(), 1);
    // The probe exits nonzero but its output carries the marker: still
    // authenticated, and the creation command is requested next.
    let (step, acts) = on_output(step, run(true, false, "", "Authenticated via browser"));
    assert!(matches!(step, Step::AwaitCreate { .. }));
    assert_eq!(acts.len(), 1);
    match &acts[0] {
        Action::Run { args } => assert_eq!(args[2], "create"),
        other => panic!("unexpected action: {:?}", action_name(other)),
    }
}

#[test]
fn created_with_key_transitions_and_exits_cleanly() {
    // The external tool answers: creation exits 0 with stdout "Created MS-7",
    // then the transition for key MS-7 exits 0 with empty stdout. The run
    // prints the creation stdout, prints nothing else, and finishes with 0.
    let mut out_prints: Vec<String> = Vec::new();
    let mut err_prints: Vec<String> = Vec::new();

    let (step, acts) = start(None, Some("fix it".to_string()));
    record(&acts, &mut out_prints, &mut err_prints);
    let (step, acts) = on_output(step, run_ok());
    record(&acts, &mut out_prints, &mut err_prints);
    let (step, acts) = on_output(step, auth_ok());
    record(&acts, &mut out_prints, &mut err_prints);

    let (step, acts) = on_output(step, run(true, true, "Created MS-7", ""));
    record(&acts, &mut out_prints, &mut err_prints);
    assert!(matches!(step, Step::AwaitTransition));
    assert_eq!(acts.len(), 2);
    match &acts[1] {
        Action::Run { args } => {
            assert_eq!(args[2], "transition");
            assert_eq!(args[4], "MS-7");
        }
        other => panic!("unexpected action: {:?}", action_name(other)),
    }

    let (step, acts) = on_output(step, run(true, true, "", ""));
    record(&acts, &mut out_prints, &mut err_prints);
    assert!(matches!(step, Step::Finished { exit_code: 0 }));
    assert_eq!(acts.len(), 1);
    assert!(matches!(acts[0], Action::Finish { exit_code: 0 }));

    assert_eq!(out_prints, vec!["Created MS-7".to_string()]);
    assert_eq!(err_prints, Vec::<String>::new());
}

#[test]
fn failed_creation_reports_and_never_transitions() {
    // The creation command exits nonzero with stderr "permission denied":
    // the run reports "Error creating ticket: permission denied", exits 1,
    // and never requests the transition.
    let (step, _) = start(None, Some("fix it".to_string()));
    let (step, _) = on_output(step, run_ok());
    let (step, _) = on_output(step, auth_ok());
    let (step, acts) = on_output(step, run(true, false, "", "permission denied"));
    assert!(matches!(step, Step::Finished { exit_code: 1 }));
    assert_eq!(acts.len(), 2);
    match &acts[0] {
        Action::PrintErrLine { text } => {
            assert_eq!(text, "Error creating ticket: permission denied")
        }
        other => panic!("unexpected action: {:?}", action_name(other)),
    }
    assert!(matches!(acts[1], Action::Finish { exit_code: 1 }));
    assert!(acts.iter().all(|a| !matches!(a, Action::Run { .. })));
}

#[test]
fn creation_spawn_failure_is_fatal() {
    let (step, _) = start(None, Some("x".to_string()));
    let (step, _) = on_output(step, run_ok());
    let (step, _) = on_output(step, auth_ok());
    let (step, acts) = on_output(step, run(false, false, "", "spawn refused"));
    assert!(matches!(step, Step::Finished { exit_code: 1 }));
    match &acts[0] {
        Action::PrintErrLine { text } => assert_eq!(text, "Error running acli: spawn refused"),
        other => panic!("unexpected action: {:?}", action_name(other)),
    }
}

#[test]
fn keyless_creation_output_warns_and_skips_transition() {
    // Creation succeeds but its stdout holds no key: the stdout is still
    // printed, a warning goes to stderr, no transition is requested, and
    // the run exits 0.
    let (step, _) = start(None, Some("x".to_string()));
    let (step, _) = on_output(step, run_ok());
    let (step, _) = on_output(step, auth_ok());
    let (step, acts) = on_output(step, run(true, true, "Created something", ""));
    assert!(matches!(step, Step::Finished { exit_code: 0 }));
    assert_eq!(acts.len(), 3);
    match &acts[0] {
        Action::PrintOut { text } => assert_eq!(text, "Created something"),
        other => panic!("unexpected action: {:?}", action_name(other)),
    }
    match &acts[1] {
        Action::PrintErrLine { text } => {
            assert_eq!(text, "Warning: Could not parse ticket key from output")
        }
        other => panic!("unexpected action: {:?}", action_name(other)),
    }
    assert!(matches!(acts[2], Action::Finish { exit_code: 0 }));
    assert!(acts.iter().all(|a| !matches!(a, Action::Run { .. })));
}

#[test]
fn failed_transition_is_only_a_warning() {
    let (step, _) = start(None, Some("x".to_string()));
    let (step, _) = on_output(step, run_ok());
    let (step, _) = on_output(step, auth_ok());
    let (step, _) = on_output(step, run(true, true, "Created MS-7", ""));
    let (step, acts) = on_output(step, run(true, false, "", "no permission"));
    assert!(matches!(step, Step::Finished { exit_code: 0 }));
    match &acts[0] {
        Action::PrintErrLine { text } => {
            assert_eq!(text, "Warning: Could not transition ticket status: no permission")
        }
        other => panic!("unexpected action: {:?}", action_name(other)),
    }
    assert!(matches!(acts[1], Action::Finish { exit_code: 0 }));
}

#[test]
fn transition_stdout_is_printed_trimmed() {
    let (step, _) = start(None, Some("x".to_string()));
    let (step, _) = on_output(step, run_ok());
    let (step, _) = on_output(step, auth_ok());
    let (step, _) = on_output(step, run(true, true, "Created MS-7", ""));
    let (step, acts) = on_output(step, run(true, true, "  moved to selected \n", ""));
    assert!(matches!(step, Step::Finished { exit_code: 0 }));
    match &acts[0] {
        Action::PrintOutLine { text } => assert_eq!(text, "moved to selected"),
        other => panic!("unexpected action: {:?}", action_name(other)),
    }
}

fn record(acts: &[Action], out_prints: &mut Vec<String>, err_prints: &mut Vec<String>) {
    for a in acts {
        match a {
            Action::PrintOut { text } => out_prints.push(text.clone()),
            Action::PrintOutLine { text } => out_prints.push(text.clone()),
            Action::PrintErrLine { text } => err_prints.push(text.clone()),
            _ => {}
        }
    }
}

fn action_name(a: &Action) -> &'static str {
    match a {
        Action::Run { .. } => "Run",
        Action::PrintOut { .. } => "PrintOut",
        Action::PrintOutLine { .. } => "PrintOutLine",
        Action::PrintErrLine { .. } => "PrintErrLine",
        Action::ShowInstallHelp => "ShowInstallHelp",
        Action::Finish { .. } => "Finish",
    }
}
