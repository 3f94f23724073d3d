//! Which file events start a pipeline.

use vstd::prelude::*;
use crate::std_bindings::{lowercase, to_lowercase};
use crate::text::{dedup_texts, first_occurrences, same_text, texts};

verus! {

/// The class of a file-system event, as the watcher reports it.
#[derive(Clone, Copy, PartialEq, Eq, Structural, Debug)]
pub enum FileEventKind {
    Any,
    Access,
    Create,
    Modify,
    Remove,
    Other,
}

/// The event names a pipeline can react to.
pub fn event_types() -> (v: Vec<String>)
    ensures
        texts(v@) == seq!["create"@, "modify"@],
{
    let mut v: Vec<String> = Vec::new();
    v.push(String::from_str("create"));
    v.push(String::from_str("modify"));
    assert(texts(v@) =~= seq!["create"@, "modify"@]);
    v
}

/// Whether an event name (in any letter case) designates the event kind.
pub open spec fn handles_kind(name: Seq<char>, kind: FileEventKind) -> bool {
    ||| (lowercase(name) == "create"@ && kind is Create)
    ||| (lowercase(name) == "modify"@ && kind is Modify)
}

/// The file events that start a pipeline, and the file names it accepts.
pub struct PipelineEvent {
    /// Names of the events to react to.
    pub events: Vec<String>,
    /// A regular expression the event's file path must match, if any.
    pub naming_regex_match: Option<String>,
}

/// Whether some name of the list designates the event kind.
pub open spec fn event_names_handle(names: Seq<Seq<char>>, kind: FileEventKind) -> bool {
    exists|i: int| 0 <= i < names.len() && handles_kind(#[trigger] names[i], kind)
}

impl Default for PipelineEvent {
    fn default() -> (e: Self)
        ensures
            texts(e.events@) == seq!["create"@, "modify"@],
            e.naming_regex_match matches Some(r) && r@ == ".*"@,
    {
        PipelineEvent { events: event_types(), naming_regex_match: Some(String::from_str(".*")) }
    }
}

impl PipelineEvent {
    /// The events named on the command line, each name kept once, accepting
    /// every file name.
    pub fn from_names(names: &Vec<String>) -> (e: Self)
        ensures
            texts(e.events@) == first_occurrences(texts(names@)),
            e.naming_regex_match matches Some(r) && r@ == ".*"@,
    {
        PipelineEvent { events: dedup_texts(names), naming_regex_match: Some(String::from_str(".*")) }
    }

    /// Whether an event name designates the event kind: `create` a creation,
    /// `modify` a modification, whatever the letter case.
    pub fn is_handled_event_kind(name: &str, kind: FileEventKind) -> (r: bool)
        ensures
            r == handles_kind(name@, kind),
    {
        let lower = to_lowercase(name);
        proof {
            reveal_strlit("create");
            reveal_strlit("modify");
            assert("create"@ != "modify"@) by {
                assert("create"@[0] != "modify"@[0]);
            }
        }
        if same_text(lower.as_str(), "create") {
            kind == FileEventKind::Create
        } else if same_text(lower.as_str(), "modify") {
            kind == FileEventKind::Modify
        } else {
            false
        }
    }

    /// Whether the pipeline reacts to an event of the kind.
    pub fn is_handled_event(&self, kind: FileEventKind) -> (r: bool)
        ensures
            r == event_names_handle(texts(self.events@), kind),
    {
        let mut i: usize = 0;
        while i < self.events.len()
            invariant
                i <= self.events@.len(),
                forall|k: int| 0 <= k < i ==> !handles_kind(#[trigger] texts(self.events@)[k], kind),
            decreases self.events@.len() - i,
        {
            if PipelineEvent::is_handled_event_kind(self.events[i].as_str(), kind) {
                assert(handles_kind(texts(self.events@)[i as int], kind));
                return true;
            }
            i = i + 1;
        }
        false
    }
}

} // verus!
