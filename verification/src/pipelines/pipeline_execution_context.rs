//! What a running pipeline knows: its configuration, the event's file and
//! the file the last action produced.

use vstd::prelude::*;
use crate::messages::TraceHandlerResponse;
use crate::pipelines::pipeline_config::PipelineConfig;
use crate::pipelines::pipeline_context_input::PipelineContextInput;
use crate::std_bindings::{parent_of, path_parent};

verus! {

/// The state of one pipeline run.
pub struct PipelineExecutionContext {
    pub config: PipelineConfig,
    pub event_file_path: String,
    pub action_file_path: Option<String>,
    pub action_name: Option<String>,
}

impl PipelineExecutionContext {
    /// The path an input designates in this run.
    pub open spec fn input_of(&self, input: PipelineContextInput) -> Option<String> {
        match input {
            PipelineContextInput::EventFilePath => Some(self.event_file_path),
            PipelineContextInput::ActionFilePath => self.action_file_path,
        }
    }

    /// A run for the event on a file, before any action.
    pub fn new(event_file_path: String, config: PipelineConfig) -> (c: Self)
        ensures
            c.config == config,
            c.event_file_path == event_file_path,
            c.action_file_path is None,
            c.action_name is None,
    {
        PipelineExecutionContext { config, event_file_path, action_file_path: None, action_name: None }
    }

    /// The path an input designates in this run.
    pub fn get_input(&self, input: PipelineContextInput) -> (r: Option<String>)
        ensures
            r == self.input_of(input),
    {
        match input {
            PipelineContextInput::EventFilePath => Some(self.event_file_path.clone()),
            PipelineContextInput::ActionFilePath => self.action_file_path.clone(),
        }
    }

    /// The trace message of this run: the event file's directory, the current
    /// action and the text; `None` when the event file path has no parent.
    pub fn trace_message(&self, message: &str) -> (r: Option<TraceHandlerResponse>)
        ensures
            r is Some <==> path_parent(self.event_file_path@) is Some,
            r matches Some(t) ==> t.directory_path@ == path_parent(self.event_file_path@)->0
                && t.action == self.action_name && t.message@ == message@,
    {
        match parent_of(self.event_file_path.as_str()) {
            Some(directory_path) => Some(TraceHandlerResponse {
                directory_path,
                action: self.action_name.clone(),
                message: String::from_str(message),
            }),
            None => None,
        }
    }

    /// How the run handles an action's error: the trace message it sends
    /// (as `trace_message` builds it), and whether the handler is to stop,
    /// which the pipeline asks with `stop_handler_on_error`. The action fails
    /// either way.
    pub fn handle_error(&self, message: &str) -> (r: (Option<TraceHandlerResponse>, bool))
        ensures
            r.0 is Some <==> path_parent(self.event_file_path@) is Some,
            r.0 matches Some(t) ==> t.directory_path@ == path_parent(self.event_file_path@)->0
                && t.action == self.action_name && t.message@ == message@,
            r.1 == self.config.stop_handler_on_error,
    {
        (self.trace_message(message), self.config.stop_handler_on_error)
    }
}

} // verus!
