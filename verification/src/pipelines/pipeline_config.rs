//! A pipeline configuration: when it runs and which actions it runs.

use vstd::prelude::*;
use crate::pipelines::actions::{is_action_name, is_default_action_for, is_default_run_cmd, PipelineActions};
use crate::pipelines::event::PipelineEvent;
use crate::text::{first_occurrences, texts};

verus! {

/// A directory handler's pipeline.
pub struct PipelineConfig {
    pub watch_recursive: bool,
    pub apply_on_startup_on_existing_files: bool,
    pub stop_handler_on_error: bool,
    pub event: PipelineEvent,
    pub actions: Vec<PipelineActions>,
}

/// The events of a generated pipeline: the named ones, each once, or
/// creation and modification when none is named; every file name accepted.
pub open spec fn generated_event(e: PipelineEvent, event_names: Option<Seq<Seq<char>>>) -> bool {
    &&& texts(e.events@) == match event_names {
        Some(names) => first_occurrences(names),
        None => seq!["create"@, "modify"@],
    }
    &&& e.naming_regex_match matches Some(r) && r@ == ".*"@
}

/// The actions of a generated pipeline: the default action of each named
/// kind, or one default command action when none is named.
pub open spec fn generated_actions(a: Seq<PipelineActions>, action_names: Option<Seq<String>>) -> bool {
    match action_names {
        Some(names) => a.len() == names.len() && forall|i: int| 0 <= i < a.len()
            ==> is_default_action_for(names[i]@, #[trigger] a[i]),
        None => a.len() == 1 && (a[0] matches PipelineActions::RunCmd(c) && is_default_run_cmd(c)),
    }
}

/// Every name designates an action kind.
pub open spec fn all_action_names(names: Seq<String>) -> bool {
    forall|i: int| 0 <= i < names.len() ==> is_action_name(#[trigger] names[i]@)
}

impl PipelineConfig {
    /// The pipeline a user generates: no recursion, no run on existing files,
    /// the handler kept on errors, the named events and actions.
    pub fn default_new(events: Option<&Vec<String>>, actions: Option<&Vec<String>>) -> (c: Self)
        requires
            actions matches Some(names) ==> all_action_names(names@),
        ensures
            !c.watch_recursive,
            !c.apply_on_startup_on_existing_files,
            !c.stop_handler_on_error,
            generated_event(c.event, match events { Some(n) => Some(texts(n@)), None => None }),
            generated_actions(c.actions@, match actions { Some(n) => Some(n@), None => None }),
    {
        let event = match events {
            Some(names) => PipelineEvent::from_names(names),
            None => PipelineEvent::default(),
        };
        let actions = match actions {
            Some(names) => PipelineActions::defaults(names),
            None => {
                let mut v: Vec<PipelineActions> = Vec::new();
                v.push(PipelineActions::default());
                v
            },
        };
        PipelineConfig {
            watch_recursive: false,
            apply_on_startup_on_existing_files: false,
            stop_handler_on_error: false,
            event,
            actions,
        }
    }

    /// The generated pipeline, or `None` when an action name designates no action kind.
    pub fn try_default_new(events: Option<&Vec<String>>, actions: Option<&Vec<String>>) -> (r: Option<Self>)
        ensures
            r is Some <==> (actions matches Some(names) ==> all_action_names(names@)),
            r matches Some(c) ==> {
                &&& !c.watch_recursive
                &&& !c.apply_on_startup_on_existing_files
                &&& !c.stop_handler_on_error
                &&& generated_event(c.event, match events { Some(n) => Some(texts(n@)), None => None })
                &&& generated_actions(c.actions@, match actions { Some(n) => Some(n@), None => None })
            },
    {
        match actions {
            Some(names) => match PipelineActions::try_defaults(names) {
                Some(_) => Some(PipelineConfig::default_new(events, actions)),
                None => None,
            },
            None => Some(PipelineConfig::default_new(events, actions)),
        }
    }
}

} // verus!
