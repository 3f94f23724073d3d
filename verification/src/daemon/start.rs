//! Starting directory handlers.

use vstd::prelude::*;
use crate::daemon::handler_mapping::HandlerMapping;
use crate::daemon::mapping::{count_live, count_true, dirs, is_concurrent_handlers_limit_reached, limit_reached, Mapping};
use crate::daemon::register::limit_text;
use crate::messages::{
    is_refusal, HandlerStateResponse, HandlerStatesMapResponse, ServiceError, StartHandlerRequest, StatusCode,
};
use crate::text::{decimal_string, decimal_text, join2, join3, texts};
use crate::watch_channel::WatcherSender;

verus! {

/// The directories of the first `n` entries whose liveness flag equals `alive`, in order.
pub open spec fn dirs_where(entries: Seq<(String, HandlerMapping)>, live: Seq<bool>, alive: bool, n: int) -> Seq<Seq<char>>
    decreases n,
{
    if n <= 0 {
        seq![]
    } else {
        let p = dirs_where(entries, live, alive, n - 1);
        if live[n - 1] == alive {
            p.push(entries[n - 1].0@)
        } else {
            p
        }
    }
}

/// The handler with the given thread channel.
pub open spec fn with_watcher(h: HandlerMapping, w: Option<WatcherSender>) -> HandlerMapping {
    HandlerMapping {
        watcher_tx: w,
        handler_config_path: h.handler_config_path,
        is_auto_startup: h.is_auto_startup,
        description: h.description,
    }
}

/// What a start request decides before any handler thread is started.
pub struct StartPlan {
    /// The answers already known: handlers already up, an unhandled directory.
    pub states_map: Vec<(String, HandlerStateResponse)>,
    /// The directories whose handlers are to be started, each start then
    /// recorded with `complete_start`.
    pub to_spawn: Vec<String>,
}

/// `r` answers every handler already up among the first `n` entries, in order.
pub open spec fn already_up_answers(
    entries: Seq<(String, HandlerMapping)>,
    live: Seq<bool>,
    r: Seq<(String, HandlerStateResponse)>,
    n: int,
) -> bool {
    &&& r.map_values(|e: (String, HandlerStateResponse)| e.0@) == dirs_where(entries, live, true, n)
    &&& forall|j: int| 0 <= j < r.len() ==> (#[trigger] r[j]).1.is_alive && r[j].1.message@ == "Handler already up"@
}

/// The message of a start refused at the concurrent live handler limit.
pub open spec fn start_limit_message(limit: u8) -> Seq<char> {
    "Aborted start handler - Reached concurrent live handler limit "@ + limit_text(limit)
}

/// The message of a start of all handlers refused because it would pass the limit.
pub open spec fn start_all_limit_message(limit: u8, live: Seq<bool>) -> Seq<char> {
    "Aborted start handlers - Would pass concurrent live handler limit "@ + limit_text(limit)
        + "\nCurrently live: "@ + decimal_text(count_true(live))
}

/// The answer recorded for one started directory, by the outcome of its start.
pub open spec fn spawn_answer(e: (String, HandlerStateResponse), d: String, o: Result<WatcherSender, String>) -> bool {
    &&& e.0@ == d@
    &&& e.1.is_alive == (o is Ok)
    &&& o is Ok ==> e.1.message@ == "Started handler"@
    &&& o matches Err(m) ==> e.1.message@ == "Failed to start handler.\nError: "@ + m@
}

/// The answers of a start: the plan's known answers, then one for each of
/// the first `k` directories started, by its outcome.
pub open spec fn start_answers(
    known: Seq<(String, HandlerStateResponse)>,
    to_spawn: Seq<String>,
    spawned: Seq<Result<WatcherSender, String>>,
    r: Seq<(String, HandlerStateResponse)>,
    k: int,
) -> bool {
    &&& r.len() == known.len() + k
    &&& forall|j: int| 0 <= j < known.len() ==> r[j] == known[j]
    &&& forall|j: int| 0 <= j < k ==> spawn_answer(#[trigger] r[known.len() + j], to_spawn[j], spawned[j])
}

/// The entries after recording the first `k` starts: only thread channels
/// change; an entry none of whose starts succeeded is unchanged, and one
/// that some start succeeded for holds the channel of one such start.
pub open spec fn started_entries(
    old: Seq<(String, HandlerMapping)>,
    new: Seq<(String, HandlerMapping)>,
    to_spawn: Seq<String>,
    spawned: Seq<Result<WatcherSender, String>>,
    k: int,
) -> bool {
    &&& new.len() == old.len()
    &&& forall|i: int| 0 <= i < old.len() ==> {
        &&& (#[trigger] new[i]).0 == old[i].0
        &&& new[i].1 == with_watcher(old[i].1, new[i].1.watcher_tx)
        &&& (forall|j: int| 0 <= j < k && to_spawn[j]@ == old[i].0@ ==> spawned[j] is Err) ==> new[i] == old[i]
        &&& !(forall|j: int| 0 <= j < k && to_spawn[j]@ == old[i].0@ ==> spawned[j] is Err) ==> exists|j: int|
            0 <= j < k && to_spawn[j]@ == old[i].0@ && spawned[j] is Ok && new[i].1.watcher_tx == Some(
                spawned[j]->Ok_0,
            )
    }
}

impl Mapping {
    /// The start answer: for a registered directory, its handler is already up
    /// or is to be started, unless it is down and the concurrent live handler
    /// limit is reached; for an empty unregistered path, every handler is up
    /// or to be started, unless there are more registered directories than
    /// the limit; any other path is answered as unhandled.
    pub open spec fn start_answer(&self, d: Seq<char>, live: Seq<bool>, limit: u8, r: Result<StartPlan, ServiceError>) -> bool {
        let n = self.entries().len() as int;
        if self.registered(d) {
            let i = self.position(d);
            if !live[i] && limit_reached(live, limit) {
                is_refusal(r, StatusCode::FailedPrecondition, start_limit_message(limit))
            } else if live[i] {
                &&& r matches Ok(p)
                &&& p.states_map@.len() == 1
                &&& p.states_map@[0].0@ == d
                &&& p.states_map@[0].1.is_alive
                &&& p.states_map@[0].1.message@ == "Handler already up"@
                &&& p.to_spawn@.len() == 0
            } else {
                &&& r matches Ok(p)
                &&& p.states_map@.len() == 0
                &&& texts(p.to_spawn@) == seq![d]
            }
        } else if d.len() == 0 {
            if limit != 0 && n > limit {
                is_refusal(r, StatusCode::FailedPrecondition, start_all_limit_message(limit, live))
            } else {
                &&& r matches Ok(p)
                &&& already_up_answers(self.entries(), live, p.states_map@, n)
                &&& texts(p.to_spawn@) == dirs_where(self.entries(), live, false, n)
            }
        } else {
            &&& r matches Ok(p)
            &&& p.states_map@.len() == 1
            &&& p.states_map@[0].0@ == d
            &&& !p.states_map@[0].1.is_alive
            &&& p.states_map@[0].1.message@ == "Directory unhandled"@
            &&& p.to_spawn@.len() == 0
        }
    }

    /// Decides a start request for known handler liveness.
    pub fn start_handler_with(&self, request: &StartHandlerRequest, live: &Vec<bool>, limit: u8)
        -> (r: Result<StartPlan, ServiceError>)
        requires
            self.wf(),
            live@.len() == self.entries().len(),
        ensures
            self.start_answer(request.directory_path@, live@, limit, r),
    {
        let d = request.directory_path.as_str();
        let mut states_map: Vec<(String, HandlerStateResponse)> = Vec::new();
        let mut to_spawn: Vec<String> = Vec::new();
        match self.find(d) {
            Some(i) => {
                if !live[i] && is_concurrent_handlers_limit_reached(live, limit) {
                    let number = decimal_string(limit as u64);
                    let m = join3("Aborted start handler - Reached concurrent live handler limit ", "(", number.as_str());
                    let m = m.concat(")");
                    assert(m@ =~= start_limit_message(limit));
                    return Err(ServiceError::new(StatusCode::FailedPrecondition, m));
                }
                if live[i] {
                    states_map.push((String::from_str(d), HandlerStateResponse {
                        is_alive: true,
                        message: String::from_str("Handler already up"),
                    }));
                } else {
                    to_spawn.push(String::from_str(d));
                    assert(texts(to_spawn@) =~= seq![d@]);
                }
                Ok(StartPlan { states_map, to_spawn })
            },
            None => {
                if d.is_empty() {
                    if limit != 0 && self.directory_mapping.len() > limit as usize {
                        let number = decimal_string(limit as u64);
                        let live_number = decimal_string(count_live(live) as u64);
                        let m = join3("Aborted start handlers - Would pass concurrent live handler limit ", "(", number.as_str());
                        let m = join3(m.as_str(), ")", "\nCurrently live: ");
                        let m = m.concat(live_number.as_str());
                        assert(m@ =~= start_all_limit_message(limit, live@));
                        return Err(ServiceError::new(StatusCode::FailedPrecondition, m));
                    }
                    let mut i: usize = 0;
                    assert(states_map@.map_values(|e: (String, HandlerStateResponse)| e.0@) =~= seq![]);
                    assert(texts(to_spawn@) =~= seq![]);
                    while i < self.directory_mapping.len()
                        invariant
                            i <= self.entries().len(),
                            live@.len() == self.entries().len(),
                            already_up_answers(self.entries(), live@, states_map@, i as int),
                            texts(to_spawn@) == dirs_where(self.entries(), live@, false, i as int),
                        decreases self.entries().len() - i,
                    {
                        let key = self.directory_mapping[i].0.clone();
                        if live[i] {
                            let ghost before = states_map@;
                            states_map.push((key, HandlerStateResponse {
                                is_alive: true,
                                message: String::from_str("Handler already up"),
                            }));
                            assert(states_map@.map_values(|e: (String, HandlerStateResponse)| e.0@) =~= before.map_values(
                                |e: (String, HandlerStateResponse)| e.0@,
                            ).push(key@));
                        } else {
                            let ghost before = to_spawn@;
                            to_spawn.push(key);
                            assert(texts(to_spawn@) =~= texts(before).push(key@));
                        }
                        i = i + 1;
                    }
                    Ok(StartPlan { states_map, to_spawn })
                } else {
                    states_map.push((String::from_str(d), HandlerStateResponse {
                        is_alive: false,
                        message: String::from_str("Directory unhandled"),
                    }));
                    Ok(StartPlan { states_map, to_spawn })
                }
            },
        }
    }

    /// Records the start of a registered directory's handler: on success the
    /// handler keeps the thread's channel, on failure nothing changes and the
    /// error is reported.
    pub fn complete_start(&mut self, directory_path: &str, spawned: Result<WatcherSender, String>) -> (s: HandlerStateResponse)
        requires
            old(self).wf(),
            old(self).registered(directory_path@),
        ensures
            final(self).wf(),
            spawned is Ok ==> {
                let i = old(self).position(directory_path@);
                &&& final(self).entries() == old(self).entries().update(
                    i,
                    (old(self).entries()[i].0, with_watcher(old(self).entries()[i].1, Some(spawned->Ok_0))),
                )
                &&& s.is_alive
                &&& s.message@ == "Started handler"@
            },
            spawned is Err ==> {
                &&& final(self).entries() == old(self).entries()
                &&& !s.is_alive
                &&& s.message@ == "Failed to start handler.\nError: "@ + spawned->Err_0@
            },
    {
        match spawned {
            Ok(tx) => {
                let i = self.find(directory_path).unwrap();
                let (key, mut handler) = self.directory_mapping.remove(i);
                handler.watcher_tx = Some(tx);
                self.directory_mapping.insert(i, (key, handler));
                assert(self.entries() =~= old(self).entries().update(
                    i as int,
                    (old(self).entries()[i as int].0, with_watcher(old(self).entries()[i as int].1, Some(tx))),
                ));
                assert(dirs(self.entries()) =~= dirs(old(self).entries()));
                HandlerStateResponse { is_alive: true, message: String::from_str("Started handler") }
            },
            Err(e) => HandlerStateResponse {
                is_alive: false,
                message: join2("Failed to start handler.\nError: ", e.as_str()),
            },
        }
    }

    /// Records the starts of a start plan's directories, in order (each as
    /// `complete_start` does), and answers the start request: the plan's
    /// known answers, then one answer per directory started.
    pub fn complete_start_all(&mut self, plan: StartPlan, spawned: Vec<Result<WatcherSender, String>>)
        -> (r: HandlerStatesMapResponse)
        requires
            old(self).wf(),
            spawned@.len() == plan.to_spawn@.len(),
            forall|j: int| 0 <= j < plan.to_spawn@.len() ==> old(self).registered(#[trigger] plan.to_spawn@[j]@),
        ensures
            final(self).wf(),
            dirs(final(self).entries()) == dirs(old(self).entries()),
            start_answers(plan.states_map@, plan.to_spawn@, spawned@, r.states_map@, plan.to_spawn@.len() as int),
            started_entries(old(self).entries(), final(self).entries(), plan.to_spawn@, spawned@, plan.to_spawn@.len() as int),
    {
        let ghost outcomes = spawned@;
        let ghost start = self.entries();
        let ghost known = plan.states_map@;
        let StartPlan { states_map, to_spawn } = plan;
        let mut states = states_map;
        let mut rest = spawned;
        let mut k: usize = 0;
        while k < to_spawn.len()
            invariant
                self.wf(),
                dirs(start).no_duplicates(),
                dirs(self.entries()) == dirs(start),
                outcomes.len() == to_spawn@.len(),
                k <= to_spawn@.len(),
                rest@ == outcomes.subrange(k as int, outcomes.len() as int),
                forall|j: int| 0 <= j < to_spawn@.len() ==> dirs(start).contains(#[trigger] to_spawn@[j]@),
                start_answers(known, to_spawn@, outcomes, states@, k as int),
                started_entries(start, self.entries(), to_spawn@, outcomes, k as int),
            decreases to_spawn@.len() - k,
        {
            let o = rest.remove(0);
            assert(o == outcomes[k as int]);
            let ghost before = self.entries();
            let d = to_spawn[k].as_str();
            assert(dirs(start).contains(to_spawn@[k as int]@));
            let s = self.complete_start(d, o);
            let key = to_spawn[k].clone();
            let ghost prev_states = states@;
            states.push((key, s));
            proof {
                assert(states@.len() == known.len() + k + 1);
                assert forall|j: int| 0 <= j < known.len() implies states@[j] == known[j] by {
                    assert(states@[j] == prev_states[j]);
                }
                assert forall|j: int| 0 <= j < k + 1 implies spawn_answer(
                    #[trigger] states@[known.len() + j],
                    to_spawn@[j],
                    outcomes[j],
                ) by {
                    if j < k {
                        assert(states@[known.len() + j] == prev_states[known.len() + j]);
                    }
                }
                let new = self.entries();
                let kk = k as int;
                assert forall|i: int| 0 <= i < start.len() implies {
                    &&& (#[trigger] new[i]).0 == start[i].0
                    &&& new[i].1 == with_watcher(start[i].1, new[i].1.watcher_tx)
                    &&& (forall|j: int| 0 <= j < kk + 1 && to_spawn@[j]@ == start[i].0@ ==> outcomes[j] is Err) ==> new[i] == start[i]
                    &&& !(forall|j: int| 0 <= j < kk + 1 && to_spawn@[j]@ == start[i].0@ ==> outcomes[j] is Err) ==> exists|j: int|
                        0 <= j < kk + 1 && to_spawn@[j]@ == start[i].0@ && outcomes[j] is Ok && new[i].1.watcher_tx == Some(
                            outcomes[j]->Ok_0,
                        )
                } by {
                    assert(before[i].0 == start[i].0);
                    assert(dirs(start)[i] == start[i].0@);
                    if o is Ok {
                        let p = dirs(before).index_of(d@);
                        assert(dirs(before).contains(d@));
                        assert(0 <= p < before.len() && dirs(before)[p] == d@);
                        if i == p {
                            assert(new[i].1.watcher_tx == Some(outcomes[kk]->Ok_0));
                            assert(to_spawn@[kk]@ == start[i].0@);
                        } else {
                            assert(new[i] == before[i]);
                            assert(dirs(start)[p] == d@);
                            assert(start[i].0@ != d@);
                            if !(forall|j: int| 0 <= j < kk && to_spawn@[j]@ == start[i].0@ ==> outcomes[j] is Err) {
                                let j = choose|j: int| 0 <= j < kk && to_spawn@[j]@ == start[i].0@ && outcomes[j] is Ok && before[i].1.watcher_tx == Some(outcomes[j]->Ok_0);
                                assert(0 <= j < kk + 1 && to_spawn@[j]@ == start[i].0@ && outcomes[j] is Ok && new[i].1.watcher_tx == Some(outcomes[j]->Ok_0));
                            }
                        }
                    } else {
                        assert(new[i] == before[i]);
                        if !(forall|j: int| 0 <= j < kk && to_spawn@[j]@ == start[i].0@ ==> outcomes[j] is Err) {
                            let j = choose|j: int| 0 <= j < kk && to_spawn@[j]@ == start[i].0@ && outcomes[j] is Ok && before[i].1.watcher_tx == Some(outcomes[j]->Ok_0);
                            assert(0 <= j < kk + 1 && to_spawn@[j]@ == start[i].0@ && outcomes[j] is Ok && new[i].1.watcher_tx == Some(outcomes[j]->Ok_0));
                        }
                    }
                }
                assert(rest@ =~= outcomes.subrange(kk + 1, outcomes.len() as int));
            }
            k = k + 1;
        }
        HandlerStatesMapResponse { states_map: states }
    }
}

} // verus!
