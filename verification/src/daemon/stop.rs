//! Stopping directory handlers, and deregistering them.

use vstd::prelude::*;
use crate::daemon::handler_mapping::HandlerMapping;
use crate::daemon::mapping::{dirs, liveness_of, Mapping};
use crate::daemon::start::with_watcher;
use crate::messages::{HandlerChannelMessage, HandlerStateResponse, HandlerStatesMapResponse, StopHandlerRequest};

verus! {

/// The text added to a stop message when the handler is also deregistered.
pub open spec fn removal_suffix(remove: bool) -> Seq<char> {
    if remove {
        " & removed"@
    } else {
        Seq::<char>::empty()
    }
}

/// A handler is stopped when it was not alive, or when its thread took the stop.
pub open spec fn entry_stop_succeeds(alive: bool, outcome: Result<String, String>) -> bool {
    !alive || outcome is Ok
}

/// The message answered for one handler's stop.
pub open spec fn entry_stop_message(alive: bool, outcome: Result<String, String>, remove: bool) -> Seq<char> {
    if !alive {
        "Handler already stopped"@ + removal_suffix(remove)
    } else {
        match outcome {
            Ok(m) => m@ + removal_suffix(remove),
            Err(m) => m@,
        }
    }
}

/// The answer for one handler's stop.
pub open spec fn entry_stop_answer(r: HandlerStateResponse, alive: bool, outcome: Result<String, String>, remove: bool) -> bool {
    &&& r.is_alive == !entry_stop_succeeds(alive, outcome)
    &&& r.message@ == entry_stop_message(alive, outcome, remove)
}

/// An entry whose handler thread has been stopped.
pub open spec fn stopped_entry(e: (String, HandlerMapping)) -> (String, HandlerMapping) {
    (e.0, with_watcher(e.1, None))
}

/// The first `n` entries after stopping each of them: a stopped handler is
/// deregistered when `remove` holds and keeps no thread channel otherwise;
/// a handler whose thread did not take the stop stays as it was.
pub open spec fn after_stop_all(
    entries: Seq<(String, HandlerMapping)>,
    live: Seq<bool>,
    outcomes: Seq<Result<String, String>>,
    remove: bool,
    n: int,
) -> Seq<(String, HandlerMapping)>
    decreases n,
{
    if n <= 0 {
        seq![]
    } else {
        let p = after_stop_all(entries, live, outcomes, remove, n - 1);
        let e = entries[n - 1];
        if entry_stop_succeeds(live[n - 1], outcomes[n - 1]) {
            if remove {
                p
            } else {
                p.push(stopped_entry(e))
            }
        } else {
            p.push(e)
        }
    }
}

/// The entries after stopping the handler at position `i`.
pub open spec fn after_stop_one(
    entries: Seq<(String, HandlerMapping)>,
    i: int,
    alive: bool,
    outcome: Result<String, String>,
    remove: bool,
) -> Seq<(String, HandlerMapping)> {
    if entry_stop_succeeds(alive, outcome) {
        if remove {
            entries.remove(i)
        } else {
            entries.update(i, stopped_entry(entries[i]))
        }
    } else {
        entries
    }
}

fn removal_message(base: &str, remove: bool) -> (m: String)
    ensures
        m@ == base@ + removal_suffix(remove),
{
    let m = String::from_str(base);
    if remove {
        m.concat(" & removed")
    } else {
        assert(m@ =~= base@ + removal_suffix(remove));
        m
    }
}

/// The answer for one handler's stop, from its liveness and stop outcome.
fn entry_stop_response(alive: bool, outcome: &Result<String, String>, remove: bool) -> (r: HandlerStateResponse)
    ensures
        entry_stop_answer(r, alive, *outcome, remove),
{
    if !alive {
        HandlerStateResponse { is_alive: false, message: removal_message("Handler already stopped", remove) }
    } else {
        match outcome {
            Ok(m) => HandlerStateResponse { is_alive: false, message: removal_message(m.as_str(), remove) },
            Err(m) => HandlerStateResponse { is_alive: true, message: m.clone() },
        }
    }
}

pub proof fn lemma_remove_keeps_distinct(entries: Seq<(String, HandlerMapping)>, i: int)
    requires
        dirs(entries).no_duplicates(),
        0 <= i < entries.len(),
    ensures
        dirs(entries.remove(i)).no_duplicates(),
{
    let a = dirs(entries);
    let b = dirs(entries.remove(i));
    assert(b =~= a.remove(i));
    assert forall|x: int, y: int| 0 <= x < b.len() && 0 <= y < b.len() && x != y implies b[x] != b[y] by {
        let xa = if x < i { x } else { x + 1 };
        let ya = if y < i { y } else { y + 1 };
        assert(b[x] == a[xa]);
        assert(b[y] == a[ya]);
    }
}

impl Mapping {
    /// The stop answer: for a registered directory, its handler is stopped
    /// (and deregistered when asked); for an empty unregistered path, every
    /// handler is; any other path is answered as unhandled. The mapping is to
    /// be saved when a handler was deregistered.
    pub open spec fn stop_answer(
        &self,
        new: Seq<(String, HandlerMapping)>,
        d: Seq<char>,
        remove: bool,
        live: Seq<bool>,
        outcomes: Seq<Result<String, String>>,
        r: (HandlerStatesMapResponse, bool),
    ) -> bool {
        let old = self.entries();
        let states = r.0.states_map@;
        if self.registered(d) {
            let i = self.position(d);
            &&& new == after_stop_one(old, i, live[i], outcomes[i], remove)
            &&& states.len() == 1
            &&& states[0].0@ == d
            &&& entry_stop_answer(states[0].1, live[i], outcomes[i], remove)
            &&& r.1 == (remove && entry_stop_succeeds(live[i], outcomes[i]))
        } else if d.len() == 0 {
            &&& new == after_stop_all(old, live, outcomes, remove, old.len() as int)
            &&& states.len() == old.len()
            &&& forall|j: int| 0 <= j < states.len() ==> (#[trigger] states[j]).0@ == old[j].0@
                && entry_stop_answer(states[j].1, live[j], outcomes[j], remove)
            &&& r.1 == (remove && exists|j: int| 0 <= j < old.len() && entry_stop_succeeds(live[j], outcomes[j]))
        } else {
            &&& new == old
            &&& states.len() == 1
            &&& states[0].0@ == d
            &&& !states[0].1.is_alive
            &&& states[0].1.message@ == "Directory unhandled"@
            &&& !r.1
        }
    }

    /// Decides a stop request for known handler liveness and the outcomes of
    /// telling handlers' threads to stop (`outcomes`, one per entry, each the
    /// answer `HandlerMapping::stop_handler_thread` gives for the send of the
    /// message `stop_messages` names; read only for those handlers).
    pub fn stop_handler(
        &mut self,
        request: &StopHandlerRequest,
        live: &Vec<bool>,
        outcomes: &Vec<Result<String, String>>,
    ) -> (r: (HandlerStatesMapResponse, bool))
        requires
            old(self).wf(),
            live@.len() == old(self).entries().len(),
            outcomes@.len() == old(self).entries().len(),
        ensures
            final(self).wf(),
            old(self).stop_answer(final(self).entries(), request.directory_path@, request.remove, live@, outcomes@, r),
    {
        let d = request.directory_path.as_str();
        let remove = request.remove;
        let mut states_map: Vec<(String, HandlerStateResponse)> = Vec::new();
        match self.find(d) {
            Some(i) => {
                let response = entry_stop_response(live[i], &outcomes[i], remove);
                let succeeded = !live[i] || outcomes[i].is_ok();
                if succeeded {
                    if remove {
                        proof {
                            lemma_remove_keeps_distinct(self.entries(), i as int);
                        }
                        let _removed = self.directory_mapping.remove(i);
                        assert(dirs(self.entries()) =~= dirs(old(self).entries().remove(i as int)));
                    } else {
                        let (key, mut handler) = self.directory_mapping.remove(i);
                        handler.watcher_tx = None;
                        self.directory_mapping.insert(i, (key, handler));
                        assert(self.entries() =~= old(self).entries().update(
                            i as int,
                            stopped_entry(old(self).entries()[i as int]),
                        ));
                        assert(dirs(self.entries()) =~= dirs(old(self).entries()));
                    }
                }
                states_map.push((String::from_str(d), response));
                (HandlerStatesMapResponse { states_map }, remove && succeeded)
            },
            None => {
                if d.is_empty() {
                    let mut rest: Vec<(String, HandlerMapping)> = Vec::new();
                    std::mem::swap(&mut rest, &mut self.directory_mapping);
                    let ghost orig = rest@;
                    let n = rest.len();
                    let mut save = false;
                    let mut i: usize = 0;
                    while i < n
                        invariant
                            orig == old(self).entries(),
                            dirs(orig).no_duplicates(),
                            n == orig.len(),
                            live@.len() == n,
                            outcomes@.len() == n,
                            i <= n,
                            rest@ == orig.skip(i as int),
                            self.entries() == after_stop_all(orig, live@, outcomes@, remove, i as int),
                            dirs(self.entries()).no_duplicates(),
                            forall|k: int| 0 <= k < self.entries().len() ==> dirs(orig.take(i as int)).contains(
                                #[trigger] dirs(self.entries())[k],
                            ),
                            states_map@.len() == i,
                            forall|j: int| 0 <= j < i ==> (#[trigger] states_map@[j]).0@ == orig[j].0@
                                && entry_stop_answer(states_map@[j].1, live@[j], outcomes@[j], remove),
                            save == (remove && exists|j: int| 0 <= j < i && entry_stop_succeeds(live@[j], outcomes@[j])),
                        decreases n - i,
                    {
                        let entry = rest.remove(0);
                        assert(entry == orig[i as int]);
                        assert(rest@ =~= orig.skip(i + 1));
                        let response = entry_stop_response(live[i], &outcomes[i], remove);
                        let succeeded = !live[i] || outcomes[i].is_ok();
                        states_map.push((entry.0.clone(), response));
                        let ghost before = self.entries();
                        proof {
                            assert(dirs(orig.take(i + 1)) =~= dirs(orig.take(i as int)).push(orig[i as int].0@));
                            assert(!dirs(orig.take(i as int)).contains(orig[i as int].0@)) by {
                                if dirs(orig.take(i as int)).contains(orig[i as int].0@) {
                                    let k = choose|k: int| 0 <= k < i && dirs(orig.take(i as int))[k] == orig[i as int].0@;
                                    assert(dirs(orig)[k] == dirs(orig)[i as int]);
                                }
                            }
                        }
                        if succeeded {
                            save = save || remove;
                            if !remove {
                                let (key, mut handler) = entry;
                                handler.watcher_tx = None;
                                let stopped = (key, handler);
                                assert(stopped == stopped_entry(orig[i as int]));
                                proof {
                                    crate::daemon::register::lemma_push_keeps_distinct(before, stopped);
                                    crate::daemon::register::lemma_dirs_push(before, stopped);
                                }
                                self.directory_mapping.push(stopped);
                            }
                        } else {
                            proof {
                                crate::daemon::register::lemma_push_keeps_distinct(before, entry);
                                crate::daemon::register::lemma_dirs_push(before, entry);
                            }
                            self.directory_mapping.push(entry);
                        }
                        proof {
                            assert forall|k: int| 0 <= k < self.entries().len() implies dirs(orig.take(i + 1)).contains(
                                #[trigger] dirs(self.entries())[k],
                            ) by {
                                if k < before.len() {
                                    let x = dirs(before)[k];
                                    assert(dirs(self.entries())[k] == x);
                                    assert(dirs(orig.take(i as int)).contains(x));
                                    let w = choose|w: int| 0 <= w < i && dirs(orig.take(i as int))[w] == x;
                                    assert(dirs(orig.take(i + 1))[w] == x);
                                } else {
                                    assert(dirs(orig.take(i + 1))[i as int] == orig[i as int].0@);
                                }
                            }
                        }
                        i = i + 1;
                    }
                    (HandlerStatesMapResponse { states_map }, save)
                } else {
                    states_map.push((String::from_str(d), HandlerStateResponse {
                        is_alive: false,
                        message: String::from_str("Directory unhandled"),
                    }));
                    (HandlerStatesMapResponse { states_map }, false)
                }
            },
        }
    }

    /// The stop message to send to each handler a stop request for
    /// `directory_path` concerns and that answered alive; none to any other.
    pub fn stop_messages(&self, directory_path: &str, live: &Vec<bool>) -> (r: Vec<Option<HandlerChannelMessage>>)
        requires
            self.wf(),
            liveness_of(self.entries(), live@),
        ensures
            r@.len() == self.entries().len(),
            forall|i: int| 0 <= i < r@.len() ==> #[trigger] r@[i] == (if self.concerns(directory_path@, i) && live@[i] {
                Some(HandlerChannelMessage::Terminate)
            } else {
                None
            }),
            forall|i: int| 0 <= i < r@.len() && r@[i] is Some ==> self.entries()[i].1.watcher_tx is Some,
    {
        let found = self.find(directory_path);
        let all = directory_path.is_empty();
        let mut r: Vec<Option<HandlerChannelMessage>> = Vec::new();
        let mut i: usize = 0;
        while i < self.directory_mapping.len()
            invariant
                self.wf(),
                liveness_of(self.entries(), live@),
                i <= self.entries().len(),
                r@.len() == i,
                found is Some <==> self.registered(directory_path@),
                found matches Some(p) ==> p == self.position(directory_path@),
                all == (directory_path@.len() == 0),
                forall|k: int| 0 <= k < i ==> #[trigger] r@[k] == (if self.concerns(directory_path@, k) && live@[k] {
                    Some(HandlerChannelMessage::Terminate)
                } else {
                    None
                }),
            decreases self.entries().len() - i,
        {
            let concerned = match found {
                Some(p) => p == i,
                None => all,
            };
            if concerned && live[i] {
                r.push(Some(HandlerChannelMessage::terminate()));
            } else {
                r.push(None);
            }
            i = i + 1;
        }
        r
    }
}

} // verus!
