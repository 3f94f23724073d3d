//! Running a command action: how the command is started, and what its
//! output makes of the action.

use vstd::prelude::*;
use crate::std_bindings::{parent_of, path_parent};
use crate::text::join2;

verus! {

/// How a command is started: the program, its one argument if any, and the
/// directory it runs in; its output is captured.
pub struct CommandLaunch {
    pub program: String,
    pub argument: Option<String>,
    pub working_dir: String,
}

/// How the command of a run is started: in the directory of the event's
/// file, through `cmd.exe /C` on Windows and as the program itself
/// elsewhere; `None` when the event's file path has no parent.
pub fn command_launch(command: &str, event_file_path: &str, windows: bool) -> (r: Option<CommandLaunch>)
    ensures
        r is Some <==> path_parent(event_file_path@) is Some,
        r matches Some(l) ==> {
            &&& l.working_dir@ == path_parent(event_file_path@)->0
            &&& windows ==> l.program@ == "cmd.exe"@ && (l.argument matches Some(a) && a@ == "/C "@ + command@)
            &&& !windows ==> l.program@ == command@ && l.argument is None
        },
{
    match parent_of(event_file_path) {
        Some(working_dir) => {
            if windows {
                Some(CommandLaunch {
                    program: String::from_str("cmd.exe"),
                    argument: Some(join2("/C ", command)),
                    working_dir,
                })
            } else {
                Some(CommandLaunch { program: String::from_str(command), argument: None, working_dir })
            }
        },
        None => None,
    }
}

/// What came of running a command. Error and output texts are given in
/// their `Debug` form, as the action reports them.
pub enum CommandOutcome {
    /// The command could not be started.
    SpawnFailed { error: String },
    /// Its output could not be collected.
    WaitFailed { error: String },
    /// It ran; whether it wrote to its standard output, and its standard error.
    Exited { stdout_empty: bool, stderr: String },
}

/// The error a command action reports for what came of its command, shown
/// as `command`; `None` when the action succeeded, that is when the command
/// wrote to its standard output.
pub fn command_failure(command: &str, outcome: &CommandOutcome) -> (r: Option<String>)
    ensures
        match *outcome {
            CommandOutcome::SpawnFailed { error } => r matches Some(m)
                && m@ == "RunCmd could not spawn command.\nCommand: "@ + command@ + "\nError: "@ + error@,
            CommandOutcome::WaitFailed { error } => r matches Some(m) && m@ == "RunCmd error - "@ + error@,
            CommandOutcome::Exited { stdout_empty, stderr } => if stdout_empty {
                r matches Some(m) && m@ == "RunCmd stderr - "@ + stderr@
            } else {
                r is None
            },
        },
{
    match outcome {
        CommandOutcome::SpawnFailed { error } => {
            let m = join2("RunCmd could not spawn command.\nCommand: ", command);
            let m = join2(m.as_str(), "\nError: ");
            Some(join2(m.as_str(), error.as_str()))
        },
        CommandOutcome::WaitFailed { error } => Some(join2("RunCmd error - ", error.as_str())),
        CommandOutcome::Exited { stdout_empty, stderr } => {
            if *stdout_empty {
                Some(join2("RunCmd stderr - ", stderr.as_str()))
            } else {
                None
            }
        },
    }
}

} // verus!
