//! A directory handler's decisions: which watcher messages run the
//! pipeline, and how far a pipeline run goes through its actions.

use vstd::prelude::*;
use crate::patterns::{pattern_compiles, pattern_is_match, regex_compiles, regex_finds_match};
use crate::pipelines::event::{event_names_handle, FileEventKind};
use crate::pipelines::pipeline_config::PipelineConfig;
use crate::text::texts;

verus! {

/// A message from a directory watcher.
pub enum WatchMessage {
    /// A file event of a kind, on paths.
    Event { kind: FileEventKind, paths: Vec<String> },
    /// A watcher error; `watch_not_found` when it is the error that ends the watch.
    Error { watch_not_found: bool },
}

/// What a handler does with a watcher message.
pub enum WatchStep {
    /// Run the pipeline on this file.
    Handle(String),
    /// Nothing to do.
    Ignore,
    /// End the watch.
    Stop,
    /// A handled event came without a path.
    MissingPath,
}

/// The configuration's file-name pattern, if any, compiles.
pub open spec fn naming_compiles(config: PipelineConfig) -> bool {
    match config.event.naming_regex_match {
        Some(p) => regex_compiles(p@),
        None => true,
    }
}

/// The configuration accepts a file path: it has no file-name pattern, or the
/// pattern matches the path.
pub open spec fn accepts_path(config: PipelineConfig, path: Seq<char>) -> bool {
    match config.event.naming_regex_match {
        Some(p) => regex_finds_match(p@, path),
        None => true,
    }
}

/// A directory handler running a pipeline.
pub struct PipelineHandler {
    config: PipelineConfig,
}

impl PipelineHandler {
    #[verifier::type_invariant]
    spec fn inv(self) -> bool {
        naming_compiles(self.config)
    }

    /// The handler's pipeline.
    pub closed spec fn spec_config(self) -> PipelineConfig {
        self.config
    }

    /// A handler for a pipeline whose file-name pattern compiles.
    pub fn new(config: PipelineConfig) -> (h: Self)
        requires
            naming_compiles(config),
        ensures
            h.spec_config() == config,
    {
        PipelineHandler { config }
    }

    /// A handler for a pipeline, or `None` when its file-name pattern does not compile.
    pub fn try_new(config: PipelineConfig) -> (r: Option<Self>)
        ensures
            r is Some <==> naming_compiles(config),
            r matches Some(h) ==> h.spec_config() == config,
    {
        let compiles = match &config.event.naming_regex_match {
            Some(p) => pattern_compiles(p.as_str()),
            None => true,
        };
        if compiles {
            Some(PipelineHandler::new(config))
        } else {
            None
        }
    }

    /// The handler's pipeline.
    pub fn config(&self) -> (c: &PipelineConfig)
        ensures
            *c == self.spec_config(),
    {
        &self.config
    }

    /// Whether the pipeline runs on a file path.
    pub fn should_handle(&self, file_path: &str) -> (r: bool)
        ensures
            r == accepts_path(self.spec_config(), file_path@),
    {
        proof {
            use_type_invariant(self);
        }
        match &self.config.event.naming_regex_match {
            Some(p) => pattern_is_match(p.as_str(), file_path).unwrap(),
            None => true,
        }
    }

    /// What to do with a watcher message: a handled event runs the pipeline
    /// on its first path when the file name is accepted; the error that ends
    /// the watch stops it; anything else is ignored.
    pub fn on_watch_message(&self, message: &WatchMessage) -> (r: WatchStep)
        ensures
            match *message {
                WatchMessage::Event { kind, paths } => if !event_names_handle(texts(self.spec_config().event.events@), kind) {
                    r is Ignore
                } else if paths@.len() == 0 {
                    r is MissingPath
                } else if accepts_path(self.spec_config(), paths@[0]@) {
                    r matches WatchStep::Handle(p) && p == paths@[0]
                } else {
                    r is Ignore
                },
                WatchMessage::Error { watch_not_found } => if watch_not_found {
                    r is Stop
                } else {
                    r is Ignore
                },
            },
    {
        match message {
            WatchMessage::Event { kind, paths } => {
                if !self.config.event.is_handled_event(*kind) {
                    WatchStep::Ignore
                } else if paths.len() == 0 {
                    WatchStep::MissingPath
                } else if self.should_handle(paths[0].as_str()) {
                    WatchStep::Handle(paths[0].clone())
                } else {
                    WatchStep::Ignore
                }
            },
            WatchMessage::Error { watch_not_found } => {
                if *watch_not_found {
                    WatchStep::Stop
                } else {
                    WatchStep::Ignore
                }
            },
        }
    }
}

/// The progress of one pipeline run: its actions run in order, and the run
/// ends at the first action that does not succeed.
pub struct PipelineRun {
    /// Whether each action run so far succeeded, in order.
    pub results: Vec<bool>,
}

impl PipelineRun {
    /// A run before its first action.
    pub fn new() -> (r: Self)
        ensures
            r.results@.len() == 0,
    {
        PipelineRun { results: Vec::new() }
    }

    /// The position of the next action to run among `action_count` actions,
    /// or `None` when the run is over.
    pub fn next_action(&self, action_count: usize) -> (r: Option<usize>)
        ensures
            r is Some <==> (self.results@.len() < action_count && !self.results@.contains(false)),
            r matches Some(i) ==> i == self.results@.len(),
    {
        let mut k: usize = 0;
        while k < self.results.len()
            invariant
                k <= self.results@.len(),
                forall|j: int| 0 <= j < k ==> self.results@[j],
            decreases self.results@.len() - k,
        {
            if !self.results[k] {
                return None;
            }
            k = k + 1;
        }
        if self.results.len() < action_count {
            Some(self.results.len())
        } else {
            None
        }
    }

    /// Records whether the action just run succeeded.
    pub fn record(&mut self, succeeded: bool)
        ensures
            final(self).results@ == old(self).results@.push(succeeded),
    {
        self.results.push(succeeded);
    }
}

} // verus!
