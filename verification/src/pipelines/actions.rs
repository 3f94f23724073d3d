//! The actions a pipeline runs on a file: moving it to a directory, or
//! running a command.

use vstd::prelude::*;
use crate::patterns::{
    datetime_format_accepted, has_no_specifier, local_now_formatted, pattern_replace_all, regex_compiles, regex_replaced,
};
use crate::pipelines::pipeline_context_input::PipelineContextInput;
use crate::pipelines::pipeline_execution_context::PipelineExecutionContext;
use crate::std_bindings::{join_path, lowercase, parent_of, path_joined, path_parent, to_lowercase};
use crate::text::{same_text, texts};

verus! {

/// The pattern an action's text names its input path with.
pub open spec fn input_pattern() -> Seq<char> {
    "(\\$input\\$)"@
}

/// The text with every `$input$` replaced by the input path, as the regex
/// replacement gives it; `None` only if the fixed pattern failed to compile.
pub fn format_input(text: &str, input: &str) -> (r: Option<String>)
    ensures
        r is Some <==> regex_compiles(input_pattern()),
        r matches Some(s) ==> s@ == regex_replaced(input_pattern(), text@, input@),
{
    pattern_replace_all("(\\$input\\$)", text, input)
}

/// The text used as a local date-time format at the current time; `None`
/// exactly when the text is not an accepted format. A text without `%` comes
/// back unchanged; any other result depends on the clock.
pub fn format_datetime(text: &str) -> (r: Option<String>)
    ensures
        r is Some <==> datetime_format_accepted(text@),
        has_no_specifier(text@) ==> (r matches Some(s) && s@ == text@),
{
    local_now_formatted(text)
}

/// The working directory of an action: the directory given, taken relative
/// to the directory of the input path (an absolute directory replaces it).
pub fn construct_working_dir(input_path: &str, directory_path: &str) -> (r: String)
    requires
        path_parent(input_path@) is Some,
    ensures
        r@ == path_joined(path_parent(input_path@)->0, directory_path@),
{
    let parent = parent_of(input_path).unwrap();
    join_path(parent.as_str(), directory_path)
}

/// The working directory of an action, or `None` when the input path has no parent.
pub fn try_construct_working_dir(input_path: &str, directory_path: &str) -> (r: Option<String>)
    ensures
        r is Some <==> path_parent(input_path@) is Some,
        r matches Some(s) ==> s@ == path_joined(path_parent(input_path@)->0, directory_path@),
{
    match parent_of(input_path) {
        Some(_) => Some(construct_working_dir(input_path, directory_path)),
        None => None,
    }
}

/// Moves (or copies) the input file into a directory.
pub struct MoveToDir {
    pub input: PipelineContextInput,
    /// The target directory, relative to the input file's directory unless absolute.
    pub directory_path: String,
    pub requires_directory_exists: bool,
    pub replace_older_files: bool,
    pub keep_input_file_intact: bool,
    pub datetime_formatting: bool,
    pub must_succeed: bool,
}

/// The move action a generated pipeline holds.
pub open spec fn is_default_move_to_dir(a: MoveToDir) -> bool {
    &&& a.input == PipelineContextInput::EventFilePath
    &&& a.directory_path@ == "output_dir_path"@
    &&& !a.requires_directory_exists
    &&& a.replace_older_files
    &&& !a.keep_input_file_intact
    &&& a.datetime_formatting
    &&& a.must_succeed
}

impl Default for MoveToDir {
    fn default() -> (a: Self)
        ensures
            is_default_move_to_dir(a),
    {
        MoveToDir {
            input: PipelineContextInput::EventFilePath,
            directory_path: String::from_str("output_dir_path"),
            requires_directory_exists: false,
            replace_older_files: true,
            keep_input_file_intact: false,
            datetime_formatting: true,
            must_succeed: true,
        }
    }
}

/// Runs a command in the input file's directory.
pub struct RunCmd {
    pub input: PipelineContextInput,
    pub command: String,
    pub input_formatting: bool,
    pub datetime_formatting: bool,
}

/// The command action a generated pipeline holds.
pub open spec fn is_default_run_cmd(a: RunCmd) -> bool {
    &&& a.input == PipelineContextInput::EventFilePath
    &&& a.command@ == "echo $input$"@
    &&& a.input_formatting
    &&& a.datetime_formatting
}

impl Default for RunCmd {
    fn default() -> (a: Self)
        ensures
            is_default_run_cmd(a),
    {
        RunCmd {
            input: PipelineContextInput::EventFilePath,
            command: String::from_str("echo $input$"),
            input_formatting: true,
            datetime_formatting: true,
        }
    }
}

/// The command with its input path put in, when input formatting is on and
/// the context holds that input.
pub open spec fn input_formatted_command(a: RunCmd, input: Option<String>) -> Seq<char> {
    if a.input_formatting && input is Some && regex_compiles(input_pattern()) {
        regex_replaced(input_pattern(), a.command@, input->0@)
    } else {
        a.command@
    }
}

impl RunCmd {
    /// The command with its input path put in, when input formatting is on
    /// and the context holds that input.
    pub fn input_formatted(&self, context: &PipelineExecutionContext) -> (r: String)
        ensures
            r@ == input_formatted_command(*self, context.input_of(self.input)),
    {
        if self.input_formatting {
            if let Some(input) = context.get_input(self.input) {
                if let Some(s) = format_input(self.command.as_str(), input.as_str()) {
                    return s;
                }
            }
        }
        self.command.clone()
    }

    /// The command to run: the input path put in when input formatting is on,
    /// then the local date-time format applied to that text when date-time
    /// formatting is on. `None` exactly when that text is not an accepted
    /// date-time format.
    pub fn format_command(&self, context: &PipelineExecutionContext) -> (r: Option<String>)
        ensures
            !self.datetime_formatting ==> (r matches Some(s) && s@ == input_formatted_command(
                *self,
                context.input_of(self.input),
            )),
            self.datetime_formatting ==> (r is Some <==> datetime_format_accepted(
                input_formatted_command(*self, context.input_of(self.input)),
            )),
            self.datetime_formatting && has_no_specifier(input_formatted_command(*self, context.input_of(self.input)))
                ==> (r matches Some(s) && s@ == input_formatted_command(*self, context.input_of(self.input))),
    {
        let formatted = self.input_formatted(context);
        if self.datetime_formatting {
            format_datetime(formatted.as_str())
        } else {
            Some(formatted)
        }
    }
}

/// The action a pipeline step runs.
pub enum PipelineActions {
    MoveToDir(MoveToDir),
    RunCmd(RunCmd),
}

impl Default for PipelineActions {
    fn default() -> (a: Self)
        ensures
            a matches PipelineActions::RunCmd(c) && is_default_run_cmd(c),
    {
        PipelineActions::RunCmd(RunCmd::default())
    }
}

/// The names of the action kinds, as a pipeline configuration writes them.
pub fn action_variant_names() -> (v: Vec<String>)
    ensures
        texts(v@) == seq!["MoveToDir"@, "RunCmd"@],
{
    let mut v: Vec<String> = Vec::new();
    v.push(String::from_str("MoveToDir"));
    v.push(String::from_str("RunCmd"));
    assert(texts(v@) =~= seq!["MoveToDir"@, "RunCmd"@]);
    v
}

/// An action name (in any letter case) that designates an action kind.
pub open spec fn is_action_name(name: Seq<char>) -> bool {
    lowercase(name) == "runcmd"@ || lowercase(name) == "movetodir"@
}

/// The default action of the kind a name designates.
pub open spec fn is_default_action_for(name: Seq<char>, a: PipelineActions) -> bool {
    if lowercase(name) == "runcmd"@ {
        a matches PipelineActions::RunCmd(c) && is_default_run_cmd(c)
    } else {
        a matches PipelineActions::MoveToDir(m) && is_default_move_to_dir(m)
    }
}

impl PipelineActions {
    /// The default action of each named kind, in order.
    pub fn defaults(action_names: &Vec<String>) -> (v: Vec<PipelineActions>)
        requires
            forall|i: int| 0 <= i < action_names@.len() ==> is_action_name(#[trigger] action_names@[i]@),
        ensures
            v@.len() == action_names@.len(),
            forall|i: int| 0 <= i < v@.len() ==> is_default_action_for(action_names@[i]@, #[trigger] v@[i]),
    {
        let mut v: Vec<PipelineActions> = Vec::new();
        let mut i: usize = 0;
        while i < action_names.len()
            invariant
                i <= action_names@.len(),
                v@.len() == i,
                forall|k: int| 0 <= k < action_names@.len() ==> is_action_name(#[trigger] action_names@[k]@),
                forall|k: int| 0 <= k < i ==> is_default_action_for(action_names@[k]@, #[trigger] v@[k]),
            decreases action_names@.len() - i,
        {
            let lower = to_lowercase(action_names[i].as_str());
            if same_text(lower.as_str(), "runcmd") {
                v.push(PipelineActions::RunCmd(RunCmd::default()));
            } else {
                assert(lowercase(action_names@[i as int]@) == "movetodir"@);
                v.push(PipelineActions::MoveToDir(MoveToDir::default()));
            }
            i = i + 1;
        }
        v
    }

    /// The default action of each named kind, or `None` when a name
    /// designates no action kind.
    pub fn try_defaults(action_names: &Vec<String>) -> (r: Option<Vec<PipelineActions>>)
        ensures
            r is Some <==> forall|i: int| 0 <= i < action_names@.len() ==> is_action_name(#[trigger] action_names@[i]@),
            r matches Some(v) ==> v@.len() == action_names@.len() && forall|i: int| 0 <= i < v@.len()
                ==> is_default_action_for(action_names@[i]@, #[trigger] v@[i]),
    {
        let mut i: usize = 0;
        while i < action_names.len()
            invariant
                i <= action_names@.len(),
                forall|k: int| 0 <= k < i ==> is_action_name(#[trigger] action_names@[k]@),
            decreases action_names@.len() - i,
        {
            let lower = to_lowercase(action_names[i].as_str());
            if !same_text(lower.as_str(), "runcmd") && !same_text(lower.as_str(), "movetodir") {
                assert(!is_action_name(action_names@[i as int]@));
                return None;
            }
            i = i + 1;
        }
        Some(PipelineActions::defaults(action_names))
    }
}

} // verus!
