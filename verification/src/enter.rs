//! Entering a container: the foreground `docker exec` command line and how its
//! outcome is reported. Arguments are passed literally, never via a host shell.
use vstd::prelude::*;
use vstd::string::*;

use crate::config::ShellConfig;
use crate::domain::ContainerId;
use crate::engine::{EngineError, EngineErrorView};
use crate::text::{owned, texts};

verus! {

/// The program that runs the shell.
pub fn program() -> (r: &'static str)
    ensures
        r@ == "docker"@,
{
    "docker"
}

/// The arguments of `docker --host ENDPOINT exec -u USER -it CONTAINER_ID SHELL`.
pub open spec fn exec_arguments(
    endpoint: Seq<char>,
    container: Seq<char>,
    user: Seq<char>,
    shell: Seq<char>,
) -> Seq<Seq<char>> {
    seq!["--host"@, endpoint, "exec"@, "-u"@, user, "-it"@, container, shell]
}

/// The argument list for entering `container` with `settings`, pinned to the
/// same endpoint as the API. The full ID is used, and user and shell are
/// single literal arguments.
pub fn exec_args(endpoint: &str, container: &ContainerId, settings: &ShellConfig) -> (r: Vec<
    String,
>)
    ensures
        texts(r@) == exec_arguments(endpoint@, container@, settings.user@, settings.shell@),
{
    let mut r: Vec<String> = Vec::new();
    r.push(owned("--host"));
    r.push(owned(endpoint));
    r.push(owned("exec"));
    r.push(owned("-u"));
    r.push(owned(settings.user.as_str()));
    r.push(owned("-it"));
    r.push(container.to_string());
    r.push(owned(settings.shell.as_str()));
    assert(texts(r@) =~= exec_arguments(endpoint@, container@, settings.user@, settings.shell@));
    r
}

/// How running the shell ended, as the operating system reported it.
#[derive(Debug, PartialEq, Eq)]
pub enum ExecOutcome {
    /// The program could not be started; `detail` is the system's reason.
    NotLaunched { detail: String },
    /// The program ran and exited; `status` is its exit status as text.
    Exited { success: bool, status: String },
}

/// The result reported for a shell session.
pub open spec fn exec_report(outcome: ExecOutcome) -> Result<(), EngineErrorView> {
    match outcome {
        ExecOutcome::NotLaunched { detail } => Err(
            EngineErrorView::Other {
                message: "could not launch docker exec (the Docker CLI must be on PATH): "@
                    + detail@,
            },
        ),
        ExecOutcome::Exited { success, status } => if success {
            Ok(())
        } else {
            Err(EngineErrorView::Other { message: "docker exec exited with "@ + status@ })
        },
    }
}

/// Turns the end of a shell session into the result the app reports: success
/// only for a successful exit.
pub fn run_result(outcome: ExecOutcome) -> (r: Result<(), EngineError>)
    ensures
        match r {
            Ok(()) => exec_report(outcome) is Ok,
            Err(e) => exec_report(outcome) == Err::<(), EngineErrorView>(e@),
        },
{
    match outcome {
        ExecOutcome::NotLaunched { detail } => {
            let mut message = owned("could not launch docker exec (the Docker CLI must be on PATH): ");
            message.append(detail.as_str());
            Err(EngineError::Other { message })
        },
        ExecOutcome::Exited { success, status } => {
            if success {
                Ok(())
            } else {
                let mut message = owned("docker exec exited with ");
                message.append(status.as_str());
                Err(EngineError::Other { message })
            }
        },
    }
}

} // verus!
