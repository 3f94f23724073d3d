//! The service's answers to client requests, decided over the mapping of
//! handled directories. Each answer is given for a known liveness of the
//! handlers (`live`, one flag per entry, as `Mapping::liveness` concludes
//! it from the pings `Mapping::ping_messages` names).

use vstd::prelude::*;
use crate::daemon::handler_mapping::{summary_of, HandlerMapping};
use crate::daemon::mapping::Mapping;
use crate::messages::{is_refusal, HandlerSummary, HandlerSummaryMapResponse, ServiceError, StatusCode};

verus! {

/// Whether any handler answered alive.
pub fn is_any_handler_alive(live: &Vec<bool>) -> (r: bool)
    ensures
        r == exists|i: int| 0 <= i < live@.len() && live@[i],
{
    let mut i: usize = 0;
    while i < live.len()
        invariant
            i <= live.len(),
            forall|k: int| 0 <= k < i ==> !live@[k],
        decreases live.len() - i,
    {
        if live[i] {
            return true;
        }
        i = i + 1;
    }
    false
}

impl Mapping {
    /// The status answer: the summary of the requested directory's handler,
    /// of every handler when the path is empty and not registered, and no
    /// summary for any other unregistered path.
    pub open spec fn status_answer(&self, d: Seq<char>, live: Seq<bool>, r: Seq<(String, HandlerSummary)>) -> bool {
        if self.registered(d) {
            &&& r.len() == 1
            &&& r[0].0@ == d
            &&& r[0].1 == summary_of(self.entries()[self.position(d)].1, live[self.position(d)])
        } else if d.len() == 0 {
            &&& r.len() == self.entries().len()
            &&& forall|i: int| 0 <= i < r.len() ==> (#[trigger] r[i]).0@ == self.entries()[i].0@
                && r[i].1 == summary_of(self.entries()[i].1, live[i])
        } else {
            r.len() == 0
        }
    }

    /// Answers a status request for known handler liveness.
    pub fn get_directory_status_with(&self, directory_path: &str, live: &Vec<bool>) -> (r: HandlerSummaryMapResponse)
        requires
            self.wf(),
            live@.len() == self.entries().len(),
        ensures
            self.status_answer(directory_path@, live@, r.summary_map@),
    {
        let mut summary_map: Vec<(String, HandlerSummary)> = Vec::new();
        match self.find(directory_path) {
            Some(i) => {
                let summary = self.directory_mapping[i].1.summary(live[i]);
                summary_map.push((String::from_str(directory_path), summary));
            },
            None => {
                if directory_path.is_empty() {
                    proof {
                        assert(directory_path@.len() == 0);
                    }
                    let mut i: usize = 0;
                    while i < self.directory_mapping.len()
                        invariant
                            i <= self.entries().len(),
                            live@.len() == self.entries().len(),
                            summary_map@.len() == i,
                            forall|k: int| 0 <= k < i ==> (#[trigger] summary_map@[k]).0@ == self.entries()[k].0@
                                && summary_map@[k].1 == summary_of(self.entries()[k].1, live@[k]),
                        decreases self.entries().len() - i,
                    {
                        let summary = self.directory_mapping[i].1.summary(live[i]);
                        summary_map.push((self.directory_mapping[i].0.clone(), summary));
                        i = i + 1;
                    }
                }
            },
        }
        HandlerSummaryMapResponse { summary_map }
    }

    /// The handler registered to a directory, required alive or not.
    pub fn get_handler_with(&self, directory_path: &str, is_required_alive: bool, live: &Vec<bool>)
        -> (r: Result<&HandlerMapping, ServiceError>)
        requires
            self.wf(),
            live@.len() == self.entries().len(),
        ensures
            !self.registered(directory_path@) ==> is_refusal(r, StatusCode::NotFound,
                "Directory isn't registered to handle"@),
            self.registered(directory_path@) && is_required_alive && !live@[self.position(directory_path@)]
                ==> is_refusal(r, StatusCode::FailedPrecondition, "Handler isn't alive"@),
            self.registered(directory_path@) && !(is_required_alive && !live@[self.position(directory_path@)])
                ==> (r matches Ok(h) && *h == self.entries()[self.position(directory_path@)].1),
    {
        match self.find(directory_path) {
            Some(i) => {
                if is_required_alive && !live[i] {
                    return Err(ServiceError::new(StatusCode::FailedPrecondition, String::from_str("Handler isn't alive")));
                }
                Ok(&self.directory_mapping[i].1)
            },
            None => Err(ServiceError::new(StatusCode::NotFound, String::from_str("Directory isn't registered to handle"))),
        }
    }

    /// The trace answer: a registered and alive handler for a path, or, for
    /// an empty path, at least one registered handler that is alive.
    pub open spec fn trace_answer(&self, d: Seq<char>, live: Seq<bool>, r: Result<(), ServiceError>) -> bool {
        if d.len() > 0 {
            if !self.registered(d) {
                is_refusal(r, StatusCode::NotFound, "Directory isn't registered to handle"@)
            } else if !live[self.position(d)] {
                is_refusal(r, StatusCode::FailedPrecondition, "Handler isn't alive"@)
            } else {
                r is Ok
            }
        } else if self.entries().len() == 0 {
            is_refusal(r, StatusCode::NotFound, "No handler registered to filesystem to trace"@)
        } else if !(exists|i: int| 0 <= i < live.len() && live[i]) {
            is_refusal(r, StatusCode::NotFound, "No handler is alive to trace"@)
        } else {
            r is Ok
        }
    }

    /// Decides whether a trace request can be followed, for known handler liveness.
    pub fn trace_handler_with(&self, directory_path: &str, live: &Vec<bool>) -> (r: Result<(), ServiceError>)
        requires
            self.wf(),
            live@.len() == self.entries().len(),
        ensures
            self.trace_answer(directory_path@, live@, r),
    {
        if !directory_path.is_empty() {
            match self.get_handler_with(directory_path, true, live) {
                Ok(_) => Ok(()),
                Err(e) => Err(e),
            }
        } else if self.is_empty() {
            Err(ServiceError::new(StatusCode::NotFound, String::from_str("No handler registered to filesystem to trace")))
        } else if !is_any_handler_alive(live) {
            Err(ServiceError::new(StatusCode::NotFound, String::from_str("No handler is alive to trace")))
        } else {
            Ok(())
        }
    }
}

} // verus!
