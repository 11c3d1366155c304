//! The external-tool gateway, modelled on plain values.
//!
//! The binary around the library spawns the external Jira client and hands
//! each captured outcome back as a [`RunOutput`]. The functions here make the
//! decisions the tool's output calls for — availability, authentication, and
//! the exact argument lists of each invocation — so that every decision is
//! verified while the spawning itself stays outside.

use vstd::prelude::*;

use crate::text::contains_seq;
use crate::text::contains_substr;
use crate::text::str_eq;

verus! {

/// The captured outcome of one invocation of the external tool.
///
/// `spawned` is false when the process could not be started at all; the
/// caller then leaves `exit_success` false, puts the spawn error text in
/// `stderr`, and leaves `stdout` empty.
pub struct RunOutput {
    pub spawned: bool,
    pub exit_success: bool,
    pub stdout: String,
    pub stderr: String,
}

/// The tool is available exactly when the liveness probe could be spawned
/// and exited with success; a spawn failure yields false.
pub fn availability_ok(probe: &RunOutput) -> (r: bool)
    ensures
        r == (probe.spawned && probe.exit_success),
{
    probe.spawned && probe.exit_success
}

/// The tool is authenticated exactly when the auth-status probe could be
/// spawned and its combined stdout and stderr contain the literal
/// `"Authenticated"` — whatever its exit status; a spawn failure yields
/// false.
pub fn authentication_ok(probe: &RunOutput) -> (r: bool)
    ensures
        r == (probe.spawned && contains_seq(probe.stdout@ + probe.stderr@, "Authenticated"@)),
{
    if !probe.spawned {
        return false;
    }
    let combined = probe.stdout.clone().concat(probe.stderr.as_str());
    contains_substr(combined.as_str(), "Authenticated")
}

/// The argument list of the liveness probe.
pub open spec fn is_version_args(a: Seq<String>) -> bool {
    &&& a.len() == 1
    &&& a[0]@ == "--version"@
}

/// The argument list of the auth-status probe.
pub open spec fn is_auth_args(a: Seq<String>) -> bool {
    &&& a.len() == 3
    &&& a[0]@ == "jira"@
    &&& a[1]@ == "auth"@
    &&& a[2]@ == "status"@
}

/// The argument list of the creation command for `project` and `summary`.
pub open spec fn is_create_args(a: Seq<String>, project: Seq<char>, summary: Seq<char>) -> bool {
    &&& a.len() == 11
    &&& a[0]@ == "jira"@
    &&& a[1]@ == "workitem"@
    &&& a[2]@ == "create"@
    &&& a[3]@ == "--project"@
    &&& a[4]@ == project
    &&& a[5]@ == "--type"@
    &&& a[6]@ == "Story"@
    &&& a[7]@ == "--summary"@
    &&& a[8]@ == summary
    &&& a[9]@ == "--assignee"@
    &&& a[10]@ == "@me"@
}

/// The argument list of the transition command for ticket `key`.
pub open spec fn is_transition_args(a: Seq<String>, key: Seq<char>) -> bool {
    &&& a.len() == 8
    &&& a[0]@ == "jira"@
    &&& a[1]@ == "workitem"@
    &&& a[2]@ == "transition"@
    &&& a[3]@ == "--key"@
    &&& a[4]@ == key
    &&& a[5]@ == "--status"@
    &&& a[6]@ == "Selected for Development"@
    &&& a[7]@ == "--yes"@
}

/// Build the liveness-probe arguments.
pub fn version_args() -> (r: Vec<String>)
    ensures
        is_version_args(r@),
{
    let mut v: Vec<String> = Vec::new();
    v.push("--version".to_owned());
    v
}

/// Build the auth-status-probe arguments.
pub fn auth_args() -> (r: Vec<String>)
    ensures
        is_auth_args(r@),
{
    let mut v: Vec<String> = Vec::new();
    v.push("jira".to_owned());
    v.push("auth".to_owned());
    v.push("status".to_owned());
    v
}

/// Build the creation-command arguments for `project` and `summary`.
pub fn create_args(project: &str, summary: &str) -> (r: Vec<String>)
    ensures
        is_create_args(r@, project@, summary@),
{
    let mut v: Vec<String> = Vec::new();
    v.push("jira".to_owned());
    v.push("workitem".to_owned());
    v.push("create".to_owned());
    v.push("--project".to_owned());
    v.push(project.to_owned());
    v.push("--type".to_owned());
    v.push("Story".to_owned());
    v.push("--summary".to_owned());
    v.push(summary.to_owned());
    v.push("--assignee".to_owned());
    v.push("@me".to_owned());
    v
}

/// Build the transition-command arguments for ticket `key`.
pub fn transition_args(key: &str) -> (r: Vec<String>)
    ensures
        is_transition_args(r@, key@),
{
    let mut v: Vec<String> = Vec::new();
    v.push("jira".to_owned());
    v.push("workitem".to_owned());
    v.push("transition".to_owned());
    v.push("--key".to_owned());
    v.push(key.to_owned());
    v.push("--status".to_owned());
    v.push("Selected for Development".to_owned());
    v.push("--yes".to_owned());
    v
}

/// The project keys the listing command yields: the parsed keys when the
/// listing could be spawned, exited successfully and parsed as a record
/// list; otherwise an empty list.
pub fn project_keys_from(spawned: bool, exit_success: bool, parsed: Option<Vec<String>>) -> (r:
    Vec<String>)
    ensures
        parsed matches Some(keys) ==> (spawned && exit_success ==> r@ == keys@),
        !(spawned && exit_success && parsed is Some) ==> r@.len() == 0,
{
    if spawned && exit_success {
        match parsed {
            Some(keys) => keys,
            None => Vec::new(),
        }
    } else {
        Vec::new()
    }
}

/// Which set of installation instructions fits the host: one per major
/// desktop platform, with a generic fallback.
pub enum InstallPlatform {
    MacOs,
    Linux,
    Windows,
    Other,
}

/// Pick the installation instructions for the host operating-system
/// identifier; any identifier but the three known ones gets the generic
/// fallback.
pub fn install_platform(os: &str) -> (r: InstallPlatform)
    ensures
        os@ == "macos"@ ==> r is MacOs,
        os@ == "linux"@ ==> r is Linux,
        os@ == "windows"@ ==> r is Windows,
        (os@ != "macos"@ && os@ != "linux"@ && os@ != "windows"@) ==> r is Other,
{
    proof {
        reveal_strlit("macos");
        reveal_strlit("linux");
        reveal_strlit("windows");
        assert("macos"@[0] == 'm');
        assert("linux"@[0] == 'l');
        assert("windows"@[0] == 'w');
        assert("macos"@ != "linux"@);
        assert("macos"@ != "windows"@);
        assert("linux"@ != "windows"@);
    }
    if str_eq(os, "macos") {
        InstallPlatform::MacOs
    } else if str_eq(os, "linux") {
        InstallPlatform::Linux
    } else if str_eq(os, "windows") {
        InstallPlatform::Windows
    } else {
        InstallPlatform::Other
    }
}

} // verus!
