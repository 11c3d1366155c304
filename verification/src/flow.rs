//! The orchestration state machine.
//!
//! The program is a linear pipeline: probe the tool's availability, probe
//! authentication, require a summary, create the ticket, and — when a ticket
//! key can be read from the creation output — transition the new ticket.
//! Each stage is a [`Step`]; the binary performs the [`Action`]s a step hands
//! out (spawning the tool, printing) and feeds the captured [`RunOutput`]
//! back in through [`on_output`]. Every decision — which command runs next,
//! what is printed, and the final exit code — is made and specified here.

use vstd::prelude::*;

use crate::extract::extract_key;
use crate::extract::has_key;
use crate::extract::key_at;
use crate::extract::key_begins_at;
use crate::extract::key_match_at;
use crate::gateway::RunOutput;
use crate::gateway::auth_args;
use crate::gateway::authentication_ok;
use crate::gateway::availability_ok;
use crate::gateway::create_args;
use crate::gateway::is_auth_args;
use crate::gateway::is_create_args;
use crate::gateway::is_transition_args;
use crate::gateway::is_version_args;
use crate::gateway::transition_args;
use crate::gateway::version_args;
use crate::text::contains_seq;
use crate::text::is_trimmed;
use crate::text::trim_ws;

verus! {

/// Where the pipeline stands: which invocation of the external tool it is
/// waiting for, or the exit code it finished with. The summary stays
/// optional through the two probes: whether one was given is only checked
/// once the tool is known to be present and authenticated.
pub enum Step {
    AwaitVersion { project: String, summary: Option<String> },
    AwaitAuth { project: String, summary: Option<String> },
    AwaitCreate { project: String, summary: String },
    AwaitTransition,
    Finished { exit_code: u8 },
}

/// What the binary is asked to do next: run the external tool with the given
/// arguments and report back, print, show the per-platform installation
/// help, or exit.
pub enum Action {
    Run { args: Vec<String> },
    PrintOut { text: String },
    PrintOutLine { text: String },
    PrintErrLine { text: String },
    ShowInstallHelp,
    Finish { exit_code: u8 },
}

/// The authentication probe succeeded: it was spawned and its combined
/// stdout and stderr contain `"Authenticated"`, whatever its exit status.
pub open spec fn auth_probe_ok(out: RunOutput) -> bool {
    out.spawned && contains_seq(out.stdout@ + out.stderr@, "Authenticated"@)
}

/// The action list of the fatal usage error: the message lines on stderr,
/// then exit code 1.
pub open spec fn is_usage_error(acts: Seq<Action>) -> bool {
    &&& acts.len() == 7
    &&& acts[0] matches Action::PrintErrLine { text } && text@ == "Error: SUMMARY is required"@
    &&& acts[1] matches Action::PrintErrLine { text } && text@ == "Usage: todo [PROJECT] SUMMARY"@
    &&& acts[2] matches Action::PrintErrLine { text } && text@ == "Examples:"@
    &&& acts[3] matches Action::PrintErrLine { text } && text@ == "  todo 'fix bug in login'"@
    &&& acts[4] matches Action::PrintErrLine { text } && text@ == "  todo MS 'implement new feature'"@
    &&& acts[5] matches Action::PrintErrLine { text } && text@ == "  todo AA 'create epic'"@
    &&& acts[6] matches Action::Finish { exit_code } && exit_code == 1
}

/// Take up the command-line inputs and hand out the first step: the project
/// defaults to `"MS"`, the summary — which may still be missing — is carried
/// along for the later stages, and the availability probe is requested
/// before anything else is judged.
pub fn start(project: Option<String>, summary: Option<String>) -> (r: (Step, Vec<Action>))
    ensures
        r.0 matches Step::AwaitVersion { project: p2, summary: s2 } && (
        project matches Some(p) ==> p2@ == p@) && (project is None ==> p2@ == "MS"@) && (
        summary matches Some(s) ==> (s2 matches Some(s3) && s3@ == s@)) && (summary is None
            ==> s2 is None),
        r.1@.len() == 1,
        r.1@[0] matches Action::Run { args } && is_version_args(args@),
{
    let p = match project {
        Some(p) => p,
        None => "MS".to_owned(),
    };
    let mut acts: Vec<Action> = Vec::new();
    acts.push(Action::Run { args: version_args() });
    (Step::AwaitVersion { project: p, summary }, acts)
}

/// Build the usage-error actions for a run without a summary.
fn usage_error_acts() -> (acts: Vec<Action>)
    ensures
        is_usage_error(acts@),
{
    let mut acts: Vec<Action> = Vec::new();
    acts.push(Action::PrintErrLine { text: "Error: SUMMARY is required".to_owned() });
    acts.push(Action::PrintErrLine { text: "Usage: todo [PROJECT] SUMMARY".to_owned() });
    acts.push(Action::PrintErrLine { text: "Examples:".to_owned() });
    acts.push(Action::PrintErrLine { text: "  todo 'fix bug in login'".to_owned() });
    acts.push(Action::PrintErrLine { text: "  todo MS 'implement new feature'".to_owned() });
    acts.push(Action::PrintErrLine { text: "  todo AA 'create epic'".to_owned() });
    acts.push(Action::Finish { exit_code: 1 });
    acts
}

/// Advance the pipeline on the captured outcome of the invocation the
/// current step was waiting for.
///
/// The clauses below are the whole control policy of the program:
///
/// - a failed availability probe stops the run with the installation help
///   and exit code 1, before authentication is ever probed;
/// - a failed authentication probe stops the run with the login hint and
///   exit code 1;
/// - only once both probes have passed is the summary required: without one
///   the run stops with the usage message and exit code 1;
/// - a creation that could not be spawned or exited with failure stops the
///   run with the tool's error text and exit code 1, and the transition is
///   never requested;
/// - a successful creation prints the tool's stdout as it came; when that
///   stdout holds a ticket key the transition is requested with exactly the
///   extracted key, and when it holds none a warning that the key could not
///   be parsed goes to stderr and the run still finishes with exit code 0;
/// - a failed transition is only a warning: the run still finishes with
///   exit code 0.
pub fn on_output(step: Step, out: RunOutput) -> (r: (Step, Vec<Action>))
    ensures
        step matches Step::AwaitVersion { project, summary } ==> {
            &&& (out.spawned && out.exit_success) ==> {
                &&& r.0 matches Step::AwaitAuth { project: p2, summary: s2 } && p2@ == project@
                    && (summary matches Some(s) ==> (s2 matches Some(s3) && s3@ == s@)) && (
                summary is None ==> s2 is None)
                &&& r.1@.len() == 1
                &&& r.1@[0] matches Action::Run { args } && is_auth_args(args@)
            }
            &&& !(out.spawned && out.exit_success) ==> {
                &&& r.0 matches Step::Finished { exit_code } && exit_code == 1
                &&& r.1@.len() == 3
                &&& r.1@[0] matches Action::PrintErrLine { text } && text@
                    == "Error: acli is not installed or not in PATH"@
                &&& r.1@[1] is ShowInstallHelp
                &&& r.1@[2] matches Action::Finish { exit_code } && exit_code == 1
            }
        },
        step matches Step::AwaitAuth { project, summary } ==> {
            &&& auth_probe_ok(out) ==> {
                &&& summary matches Some(s) ==> {
                    &&& r.0 matches Step::AwaitCreate { project: p2, summary: s2 } && p2@
                        == project@ && s2@ == s@
                    &&& r.1@.len() == 1
                    &&& r.1@[0] matches Action::Run { args } && is_create_args(args@, project@, s@)
                }
                &&& summary is None ==> {
                    &&& r.0 matches Step::Finished { exit_code } && exit_code == 1
                    &&& is_usage_error(r.1@)
                }
            }
            &&& !auth_probe_ok(out) ==> {
                &&& r.0 matches Step::Finished { exit_code } && exit_code == 1
                &&& r.1@.len() == 3
                &&& r.1@[0] matches Action::PrintErrLine { text } && text@
                    == "Error: acli is not authenticated"@
                &&& r.1@[1] matches Action::PrintErrLine { text } && text@
                    == "Please run: acli jira auth login --web"@
                &&& r.1@[2] matches Action::Finish { exit_code } && exit_code == 1
            }
        },
        step matches Step::AwaitCreate { project, summary } ==> {
            &&& !out.spawned ==> {
                &&& r.0 matches Step::Finished { exit_code } && exit_code == 1
                &&& r.1@.len() == 2
                &&& r.1@[0] matches Action::PrintErrLine { text } && text@ == "Error running acli: "@
                    + out.stderr@
                &&& r.1@[1] matches Action::Finish { exit_code } && exit_code == 1
            }
            &&& (out.spawned && !out.exit_success) ==> {
                &&& r.0 matches Step::Finished { exit_code } && exit_code == 1
                &&& r.1@.len() == 2
                &&& r.1@[0] matches Action::PrintErrLine { text } && text@
                    == "Error creating ticket: "@ + out.stderr@
                &&& r.1@[1] matches Action::Finish { exit_code } && exit_code == 1
            }
            &&& (out.spawned && out.exit_success && has_key(out.stdout@, project@)) ==> {
                &&& r.0 is AwaitTransition
                &&& r.1@.len() == 2
                &&& r.1@[0] matches Action::PrintOut { text } && text@ == out.stdout@
                &&& r.1@[1] matches Action::Run { args } && exists|i: int, k: int|
                    {
                        &&& #[trigger] key_match_at(out.stdout@, project@, i, k)
                        &&& forall|p: int| 0 <= p < i ==> !key_begins_at(out.stdout@, project@, p)
                        &&& is_transition_args(args@, key_at(out.stdout@, project@, i, k))
                    }
            }
            &&& (out.spawned && out.exit_success && !has_key(out.stdout@, project@)) ==> {
                &&& r.0 matches Step::Finished { exit_code } && exit_code == 0
                &&& r.1@.len() == 3
                &&& r.1@[0] matches Action::PrintOut { text } && text@ == out.stdout@
                &&& r.1@[1] matches Action::PrintErrLine { text } && text@
                    == "Warning: Could not parse ticket key from output"@
                &&& r.1@[2] matches Action::Finish { exit_code } && exit_code == 0
            }
        },
        step is AwaitTransition ==> {
            &&& !(out.spawned && out.exit_success) ==> {
                &&& r.0 matches Step::Finished { exit_code } && exit_code == 0
                &&& r.1@.len() == 2
                &&& r.1@[0] matches Action::PrintErrLine { text } && text@
                    == "Warning: Could not transition ticket status: "@ + out.stderr@
                &&& r.1@[1] matches Action::Finish { exit_code } && exit_code == 0
            }
            &&& (out.spawned && out.exit_success && out.stdout@.len() > 0) ==> {
                &&& r.0 matches Step::Finished { exit_code } && exit_code == 0
                &&& r.1@.len() == 2
                &&& r.1@[0] matches Action::PrintOutLine { text } && is_trimmed(out.stdout@, text@)
                &&& r.1@[1] matches Action::Finish { exit_code } && exit_code == 0
            }
            &&& (out.spawned && out.exit_success && out.stdout@.len() == 0) ==> {
                &&& r.0 matches Step::Finished { exit_code } && exit_code == 0
                &&& r.1@.len() == 1
                &&& r.1@[0] matches Action::Finish { exit_code } && exit_code == 0
            }
        },
        step matches Step::Finished { exit_code } ==> {
            &&& r.0 matches Step::Finished { exit_code: e2 } && e2 == exit_code
            &&& r.1@.len() == 0
        },
{
    match step {
        Step::AwaitVersion { project, summary } => {
            if availability_ok(&out) {
                let mut acts: Vec<Action> = Vec::new();
                acts.push(Action::Run { args: auth_args() });
                (Step::AwaitAuth { project, summary }, acts)
            } else {
                let mut acts: Vec<Action> = Vec::new();
                acts.push(
                    Action::PrintErrLine {
                        text: "Error: acli is not installed or not in PATH".to_owned(),
                    },
                );
                acts.push(Action::ShowInstallHelp);
                acts.push(Action::Finish { exit_code: 1 });
                (Step::Finished { exit_code: 1 }, acts)
            }
        },
        Step::AwaitAuth { project, summary } => {
            if authentication_ok(&out) {
                match summary {
                    Some(s) => {
                        let args = create_args(project.as_str(), s.as_str());
                        let mut acts: Vec<Action> = Vec::new();
                        acts.push(Action::Run { args });
                        (Step::AwaitCreate { project, summary: s }, acts)
                    },
                    None => (Step::Finished { exit_code: 1 }, usage_error_acts()),
                }
            } else {
                let mut acts: Vec<Action> = Vec::new();
                acts.push(
                    Action::PrintErrLine { text: "Error: acli is not authenticated".to_owned() },
                );
                acts.push(
                    Action::PrintErrLine {
                        text: "Please run: acli jira auth login --web".to_owned(),
                    },
                );
                acts.push(Action::Finish { exit_code: 1 });
                (Step::Finished { exit_code: 1 }, acts)
            }
        },
        Step::AwaitCreate { project, summary: _ } => {
            if !out.spawned {
                let text = "Error running acli: ".to_owned().concat(out.stderr.as_str());
                let mut acts: Vec<Action> = Vec::new();
                acts.push(Action::PrintErrLine { text });
                acts.push(Action::Finish { exit_code: 1 });
                (Step::Finished { exit_code: 1 }, acts)
            } else if !out.exit_success {
                let text = "Error creating ticket: ".to_owned().concat(out.stderr.as_str());
                let mut acts: Vec<Action> = Vec::new();
                acts.push(Action::PrintErrLine { text });
                acts.push(Action::Finish { exit_code: 1 });
                (Step::Finished { exit_code: 1 }, acts)
            } else {
                match extract_key(out.stdout.as_str(), project.as_str()) {
                    Some(key) => {
                        let args = transition_args(key.as_str());
                        let mut acts: Vec<Action> = Vec::new();
                        acts.push(Action::PrintOut { text: out.stdout });
                        acts.push(Action::Run { args });
                        (Step::AwaitTransition, acts)
                    },
                    None => {
                        let mut acts: Vec<Action> = Vec::new();
                        acts.push(Action::PrintOut { text: out.stdout });
                        acts.push(
                            Action::PrintErrLine {
                                text: "Warning: Could not parse ticket key from output".to_owned(),
                            },
                        );
                        acts.push(Action::Finish { exit_code: 0 });
                        (Step::Finished { exit_code: 0 }, acts)
                    },
                }
            }
        },
        Step::AwaitTransition => {
            if !(out.spawned && out.exit_success) {
                let text = "Warning: Could not transition ticket status: ".to_owned().concat(
                    out.stderr.as_str(),
                );
                let mut acts: Vec<Action> = Vec::new();
                acts.push(Action::PrintErrLine { text });
                acts.push(Action::Finish { exit_code: 0 });
                (Step::Finished { exit_code: 0 }, acts)
            } else if out.stdout.as_str().unicode_len() > 0 {
                let text = trim_ws(out.stdout.as_str());
                let mut acts: Vec<Action> = Vec::new();
                acts.push(Action::PrintOutLine { text });
                acts.push(Action::Finish { exit_code: 0 });
                (Step::Finished { exit_code: 0 }, acts)
            } else {
                let mut acts: Vec<Action> = Vec::new();
                acts.push(Action::Finish { exit_code: 0 });
                (Step::Finished { exit_code: 0 }, acts)
            }
        },
        Step::Finished { exit_code } => {
            let acts: Vec<Action> = Vec::new();
            (Step::Finished { exit_code }, acts)
        },
    }
}

} // verus!
