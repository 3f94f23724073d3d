//! Running a move action: the decisions between its file-system steps.
//!
//! A run asks for one file-system step at a time (`MoveRequest`); the caller
//! performs it and hands back what came of it (`MoveEvent`).

use vstd::prelude::*;
use crate::patterns::{datetime_format_accepted, has_no_specifier};
use crate::pipelines::actions::{format_datetime, try_construct_working_dir, MoveToDir};
use crate::pipelines::pipeline_execution_context::PipelineExecutionContext;
use crate::std_bindings::{file_name_of, join_path, path_file_name, path_joined, path_parent};

verus! {

/// Where a move run stands.
pub enum MovePhase {
    /// The working directory is being resolved.
    Canonicalizing(String),
    /// The working directory was not found: is it a directory?
    CheckingMissing(String),
    /// The missing working directory is being created.
    CreatingMissing(String),
    /// The created working directory is being resolved.
    Recanonicalizing(String),
    /// Is the resolved working directory a directory?
    CheckingDir(String),
    /// The resolved working directory is being created.
    CreatingDir(String),
    /// Does a file already exist at the target path?
    CheckingTarget(String),
    /// The input file is being copied to the target path.
    Copying(String),
    /// The copy is being reported.
    LoggingCopy(String),
    /// The input file is being deleted.
    Removing(String),
    /// The deletion is being reported.
    LoggingRemoval(String),
    /// The run is over.
    Done,
}

/// A file-system step, report or answer a move run asks for.
pub enum MoveRequest {
    Canonicalize(String),
    IsDir(String),
    CreateDirAll(String),
    IsFile(String),
    /// Copy the first path to the second.
    Copy(String, String),
    RemoveFile(String),
    /// Report a message; the run goes on when it is acknowledged.
    Log(String),
    /// The action fails with this error message.
    Fail(String),
    /// The action succeeds; the moved file is the pipeline's next input.
    Finish(String),
    /// The run cannot go on, with the reason.
    Abort(String),
    /// The event does not answer the step asked for; nothing changed.
    Unexpected,
}

/// What came of a step.
pub enum MoveEvent {
    /// The path resolved to this canonical path.
    Canonicalized(String),
    /// The path does not exist.
    NotFound,
    /// Resolving the path failed otherwise; the error's debug text.
    Failed(String),
    /// The answer to a yes/no step.
    Flag(bool),
    /// A creation or report was done.
    Done,
    Copied,
    /// The copy failed; the error's debug text.
    CopyFailed(String),
    Removed,
    /// The deletion failed; the error's text.
    RemoveFailed(String),
}

/// A move run.
pub struct MoveToDirRun {
    pub input_path: String,
    pub file_name: String,
    pub requires_directory_exists: bool,
    pub replace_older_files: bool,
    pub keep_input_file_intact: bool,
    pub phase: MovePhase,
}

/// The first step of a move run for an action, a pipeline context and the
/// target directory text (`None` when its date-time formatting failed): the
/// action's input must hold a path with a file name; the target directory is
/// taken relative to the input's directory.
pub open spec fn move_start(
    a: MoveToDir,
    context: PipelineExecutionContext,
    directory: Option<Seq<char>>,
    s: MoveToDirRun,
    r: MoveRequest,
) -> bool {
    match context.input_of(a.input) {
        None => s.phase is Done && (r matches MoveRequest::Fail(m) && m@ == "Input doesn't contain value"@),
        Some(input) => if path_file_name(input@) is None {
            s.phase is Done && (r matches MoveRequest::Fail(m) && m@ == "Path can't be parsed as file"@)
        } else if directory is None {
            s.phase is Done && (r matches MoveRequest::Abort(m) && m@ == "Date-time formatting of the directory path failed"@)
        } else if path_parent(input@) is None {
            s.phase is Done && (r matches MoveRequest::Abort(m) && m@ == "The input path has no parent directory"@)
        } else {
            &&& s.input_path == input
            &&& s.file_name@ == path_file_name(input@)->0
            &&& s.requires_directory_exists == a.requires_directory_exists
            &&& s.replace_older_files == a.replace_older_files
            &&& s.keep_input_file_intact == a.keep_input_file_intact
            &&& s.phase matches MovePhase::Canonicalizing(w)
            &&& r == MoveRequest::Canonicalize(w)
            &&& w@ == path_joined(path_parent(input@)->0, directory->0)
        },
    }
}

/// What the target directory of a move run can be: the action's directory,
/// date-time formatted when the action asks it; formatting fails exactly
/// when the text is not an accepted format, and leaves a text without `%`
/// unchanged.
pub open spec fn formatted_directory(a: MoveToDir, directory: Option<Seq<char>>) -> bool {
    if a.datetime_formatting {
        &&& directory is Some <==> datetime_format_accepted(a.directory_path@)
        &&& has_no_specifier(a.directory_path@) ==> directory == Some(a.directory_path@)
    } else {
        directory == Some(a.directory_path@)
    }
}

/// The run with another phase.
pub open spec fn in_phase(s: MoveToDirRun, p: MovePhase) -> MoveToDirRun {
    MoveToDirRun {
        input_path: s.input_path,
        file_name: s.file_name,
        requires_directory_exists: s.requires_directory_exists,
        replace_older_files: s.replace_older_files,
        keep_input_file_intact: s.keep_input_file_intact,
        phase: p,
    }
}

/// One step of a move run: from run `s` and event `e` to run `t` and request `r`.
pub open spec fn move_step(s: MoveToDirRun, e: MoveEvent, t: MoveToDirRun, r: MoveRequest) -> bool {
    match (s.phase, e) {
        (MovePhase::Canonicalizing(w), MoveEvent::Canonicalized(c)) =>
            t == in_phase(s, MovePhase::CheckingDir(c)) && r == MoveRequest::IsDir(c),
        (MovePhase::Canonicalizing(w), MoveEvent::NotFound) =>
            t == in_phase(s, MovePhase::CheckingMissing(w)) && r == MoveRequest::IsDir(w),
        (MovePhase::Canonicalizing(w), MoveEvent::Failed(m)) =>
            t == in_phase(s, MovePhase::Done) && r == MoveRequest::Fail(m),
        (MovePhase::CheckingMissing(w), MoveEvent::Flag(true)) =>
            t == in_phase(s, MovePhase::Recanonicalizing(w)) && r == MoveRequest::Canonicalize(w),
        (MovePhase::CheckingMissing(w), MoveEvent::Flag(false)) => if s.requires_directory_exists {
            t == in_phase(s, MovePhase::Done) && (r matches MoveRequest::Fail(m) && m@ == "Directory required to exist"@)
        } else {
            t == in_phase(s, MovePhase::CreatingMissing(w)) && r == MoveRequest::CreateDirAll(w)
        },
        (MovePhase::CreatingMissing(w), MoveEvent::Done) =>
            t == in_phase(s, MovePhase::Recanonicalizing(w)) && r == MoveRequest::Canonicalize(w),
        (MovePhase::Recanonicalizing(w), MoveEvent::Canonicalized(c)) =>
            t == in_phase(s, MovePhase::CheckingDir(c)) && r == MoveRequest::IsDir(c),
        (MovePhase::CheckingDir(d), MoveEvent::Flag(true)) =>
            t.phase matches MovePhase::CheckingTarget(p) && t == in_phase(s, MovePhase::CheckingTarget(p))
                && p@ == path_joined(d@, s.file_name@) && r == MoveRequest::IsFile(p),
        (MovePhase::CheckingDir(d), MoveEvent::Flag(false)) => if s.requires_directory_exists {
            t == in_phase(s, MovePhase::Done) && (r matches MoveRequest::Fail(m) && m@ == "Directory required to exist"@)
        } else {
            t == in_phase(s, MovePhase::CreatingDir(d)) && r == MoveRequest::CreateDirAll(d)
        },
        (MovePhase::CreatingDir(d), MoveEvent::Done) =>
            t.phase matches MovePhase::CheckingTarget(p) && t == in_phase(s, MovePhase::CheckingTarget(p))
                && p@ == path_joined(d@, s.file_name@) && r == MoveRequest::IsFile(p),
        (MovePhase::CheckingTarget(p), MoveEvent::Flag(exists)) => if exists && !s.replace_older_files {
            t == in_phase(s, MovePhase::Done) && (r matches MoveRequest::Fail(m) && m@ == "Can't replace older file"@)
        } else {
            t == in_phase(s, MovePhase::Copying(p)) && r == MoveRequest::Copy(s.input_path, p)
        },
        (MovePhase::Copying(p), MoveEvent::Copied) =>
            t == in_phase(s, MovePhase::LoggingCopy(p)) && (r matches MoveRequest::Log(m) && m@ == "Copied file"@),
        (MovePhase::Copying(p), MoveEvent::CopyFailed(m)) =>
            t == in_phase(s, MovePhase::Done) && r == MoveRequest::Fail(m),
        (MovePhase::LoggingCopy(p), MoveEvent::Done) => if s.keep_input_file_intact {
            t == in_phase(s, MovePhase::Done) && r == MoveRequest::Finish(p)
        } else {
            t == in_phase(s, MovePhase::Removing(p)) && r == MoveRequest::RemoveFile(s.input_path)
        },
        (MovePhase::Removing(p), MoveEvent::Removed) =>
            t == in_phase(s, MovePhase::LoggingRemoval(p)) && (r matches MoveRequest::Log(m) && m@ == "Deleted original file"@),
        (MovePhase::Removing(p), MoveEvent::RemoveFailed(m)) =>
            t == in_phase(s, MovePhase::Done) && r == MoveRequest::Fail(m),
        (MovePhase::LoggingRemoval(p), MoveEvent::Done) =>
            t == in_phase(s, MovePhase::Done) && r == MoveRequest::Finish(p),
        _ => t == s && r is Unexpected,
    }
}

fn done_run(input_path: String, file_name: String, a: &MoveToDir) -> (s: MoveToDirRun)
    ensures
        s.phase is Done,
        s.input_path == input_path,
        s.file_name == file_name,
        s.requires_directory_exists == a.requires_directory_exists,
        s.replace_older_files == a.replace_older_files,
        s.keep_input_file_intact == a.keep_input_file_intact,
{
    MoveToDirRun {
        input_path,
        file_name,
        requires_directory_exists: a.requires_directory_exists,
        replace_older_files: a.replace_older_files,
        keep_input_file_intact: a.keep_input_file_intact,
        phase: MovePhase::Done,
    }
}

impl MoveToDirRun {
    /// Starts a move run toward a target directory text already date-time
    /// formatted as the action asks (`None` when that formatting failed).
    pub fn start_with(action: &MoveToDir, context: &PipelineExecutionContext, directory: Option<String>)
        -> (r: (MoveToDirRun, MoveRequest))
        ensures
            move_start(*action, *context, match directory { Some(d) => Some(d@), None => None }, r.0, r.1),
    {
        let input = match context.get_input(action.input) {
            Some(input) => input,
            None => {
                return (
                    done_run(String::new(), String::new(), action),
                    MoveRequest::Fail(String::from_str("Input doesn't contain value")),
                );
            },
        };
        let file_name = match file_name_of(input.as_str()) {
            Some(f) => f,
            None => {
                return (
                    done_run(input, String::new(), action),
                    MoveRequest::Fail(String::from_str("Path can't be parsed as file")),
                );
            },
        };
        let directory = match directory {
            Some(d) => d,
            None => {
                return (
                    done_run(input, file_name, action),
                    MoveRequest::Abort(String::from_str("Date-time formatting of the directory path failed")),
                );
            },
        };
        match try_construct_working_dir(input.as_str(), directory.as_str()) {
            Some(working) => {
                let request = MoveRequest::Canonicalize(working.clone());
                let mut run = done_run(input, file_name, action);
                run.phase = MovePhase::Canonicalizing(working);
                (run, request)
            },
            None => (
                done_run(input, file_name, action),
                MoveRequest::Abort(String::from_str("The input path has no parent directory")),
            ),
        }
    }

    /// Starts a move run: formats the action's directory at the current
    /// local time when the action asks it, then starts as `start_with`.
    pub fn start(action: &MoveToDir, context: &PipelineExecutionContext) -> (r: (MoveToDirRun, MoveRequest))
        ensures
            exists|directory: Option<Seq<char>>| formatted_directory(*action, directory)
                && move_start(*action, *context, directory, r.0, r.1),
    {
        let directory = if action.datetime_formatting {
            format_datetime(action.directory_path.as_str())
        } else {
            Some(action.directory_path.clone())
        };
        let ghost d = match directory { Some(ref x) => Some(x@), None => None };
        let r = MoveToDirRun::start_with(action, context, directory);
        assert(formatted_directory(*action, d));
        r
    }

    fn with_phase(&mut self, phase: MovePhase)
        ensures
            *final(self) == in_phase(*old(self), phase),
    {
        self.phase = phase;
    }

    /// The next step of the run, for what came of the last one.
    pub fn step(&mut self, event: MoveEvent) -> (r: MoveRequest)
        ensures
            move_step(*old(self), event, *final(self), r),
    {
        let mut phase = MovePhase::Done;
        std::mem::swap(&mut phase, &mut self.phase);
        proof {
            assert(*self == in_phase(*old(self), MovePhase::Done));
        }
        match (phase, event) {
            (MovePhase::Canonicalizing(w), MoveEvent::Canonicalized(c)) => {
                self.with_phase(MovePhase::CheckingDir(c.clone()));
                MoveRequest::IsDir(c)
            },
            (MovePhase::Canonicalizing(w), MoveEvent::NotFound) => {
                self.with_phase(MovePhase::CheckingMissing(w.clone()));
                MoveRequest::IsDir(w)
            },
            (MovePhase::Canonicalizing(_w), MoveEvent::Failed(m)) => MoveRequest::Fail(m),
            (MovePhase::CheckingMissing(w), MoveEvent::Flag(true)) => {
                self.with_phase(MovePhase::Recanonicalizing(w.clone()));
                MoveRequest::Canonicalize(w)
            },
            (MovePhase::CheckingMissing(w), MoveEvent::Flag(false)) => {
                if self.requires_directory_exists {
                    MoveRequest::Fail(String::from_str("Directory required to exist"))
                } else {
                    self.with_phase(MovePhase::CreatingMissing(w.clone()));
                    MoveRequest::CreateDirAll(w)
                }
            },
            (MovePhase::CreatingMissing(w), MoveEvent::Done) => {
                self.with_phase(MovePhase::Recanonicalizing(w.clone()));
                MoveRequest::Canonicalize(w)
            },
            (MovePhase::Recanonicalizing(_w), MoveEvent::Canonicalized(c)) => {
                self.with_phase(MovePhase::CheckingDir(c.clone()));
                MoveRequest::IsDir(c)
            },
            (MovePhase::CheckingDir(d), MoveEvent::Flag(true)) => {
                let p = join_path(d.as_str(), self.file_name.as_str());
                self.with_phase(MovePhase::CheckingTarget(p.clone()));
                MoveRequest::IsFile(p)
            },
            (MovePhase::CheckingDir(d), MoveEvent::Flag(false)) => {
                if self.requires_directory_exists {
                    MoveRequest::Fail(String::from_str("Directory required to exist"))
                } else {
                    self.with_phase(MovePhase::CreatingDir(d.clone()));
                    MoveRequest::CreateDirAll(d)
                }
            },
            (MovePhase::CreatingDir(d), MoveEvent::Done) => {
                let p = join_path(d.as_str(), self.file_name.as_str());
                self.with_phase(MovePhase::CheckingTarget(p.clone()));
                MoveRequest::IsFile(p)
            },
            (MovePhase::CheckingTarget(p), MoveEvent::Flag(exists)) => {
                if exists && !self.replace_older_files {
                    MoveRequest::Fail(String::from_str("Can't replace older file"))
                } else {
                    self.with_phase(MovePhase::Copying(p.clone()));
                    MoveRequest::Copy(self.input_path.clone(), p)
                }
            },
            (MovePhase::Copying(p), MoveEvent::Copied) => {
                self.with_phase(MovePhase::LoggingCopy(p));
                MoveRequest::Log(String::from_str("Copied file"))
            },
            (MovePhase::Copying(_p), MoveEvent::CopyFailed(m)) => MoveRequest::Fail(m),
            (MovePhase::LoggingCopy(p), MoveEvent::Done) => {
                if self.keep_input_file_intact {
                    MoveRequest::Finish(p)
                } else {
                    self.with_phase(MovePhase::Removing(p));
                    MoveRequest::RemoveFile(self.input_path.clone())
                }
            },
            (MovePhase::Removing(p), MoveEvent::Removed) => {
                self.with_phase(MovePhase::LoggingRemoval(p));
                MoveRequest::Log(String::from_str("Deleted original file"))
            },
            (MovePhase::Removing(_p), MoveEvent::RemoveFailed(m)) => MoveRequest::Fail(m),
            (MovePhase::LoggingRemoval(p), MoveEvent::Done) => MoveRequest::Finish(p),
            (phase, _) => {
                self.with_phase(phase);
                MoveRequest::Unexpected
            },
        }
    }
}

} // verus!
