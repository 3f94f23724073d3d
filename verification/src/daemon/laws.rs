//! Properties of the service that span its operations.

use vstd::prelude::*;
use crate::daemon::handler_mapping::{modified, HandlerMapping};
use crate::daemon::mapping::{by_directory, dirs, lemma_by_directory_at, limit_reached, liveness_of, Mapping};
use crate::daemon::register::{first_nested, nested_paths, register_answer, registered_entry, RegisterDecision};
use crate::daemon::start::StartPlan;
use crate::daemon::stop::{after_stop_all, entry_stop_succeeds, lemma_remove_keeps_distinct, stopped_entry};
use crate::daemon::start::with_watcher;
use crate::text::texts;
use crate::daemon::modify::modified_entry;
use crate::messages::{HandlerSummary, ModifyHandlerRequest, RegisterToDirectoryRequest};


verus! {

/// No handled directory lies within another one, as paths (and so no
/// directory is handled twice).
pub open spec fn nesting_free(entries: Seq<(String, HandlerMapping)>) -> bool {
    forall|i: int, j: int|
        0 <= i < entries.len() && 0 <= j < entries.len() && i != j ==> !nested_paths(
            #[trigger] entries[i].0@,
            #[trigger] entries[j].0@,
        )
}

proof fn lemma_first_nested_exists(ds: Seq<Seq<char>>, d: Seq<char>, k: int)
    requires
        0 <= k < ds.len(),
        nested_paths(d, ds[k]),
    ensures
        exists|f: int| first_nested(ds, d, f),
    decreases k,
{
    if forall|j: int| 0 <= j < k ==> !nested_paths(d, #[trigger] ds[j]) {
        assert(first_nested(ds, d, k));
    } else {
        let j = choose|j: int| 0 <= j < k && nested_paths(d, ds[j]);
        lemma_first_nested_exists(ds, d, j);
    }
}

proof fn lemma_push_nesting_free(old: Seq<(String, HandlerMapping)>, e: (String, HandlerMapping))
    requires
        nesting_free(old),
        forall|k: int| 0 <= k < old.len() ==> !nested_paths(e.0@, #[trigger] dirs(old)[k]),
    ensures
        nesting_free(old.push(e)),
{
    let new = old.push(e);
    assert forall|i: int, j: int| 0 <= i < new.len() && 0 <= j < new.len() && i != j implies !nested_paths(
        #[trigger] new[i].0@,
        #[trigger] new[j].0@,
    ) by {
        if i == old.len() {
            assert(dirs(old)[j] == new[j].0@);
        } else if j == old.len() {
            assert(dirs(old)[i] == new[i].0@);
        } else {
            assert(old[i] == new[i] && old[j] == new[j]);
        }
    }
}

/// A directory nested with no handled one can be added without breaking nesting-freedom.
proof fn lemma_unconflicted_push(
    old: Seq<(String, HandlerMapping)>,
    d: Seq<char>,
    e: (String, HandlerMapping),
)
    requires
        nesting_free(old),
        !(exists|k: int| first_nested(dirs(old), d, k)),
        e.0@ == d,
    ensures
        nesting_free(old.push(e)),
{
    assert forall|k: int| 0 <= k < old.len() implies !nested_paths(e.0@, #[trigger] dirs(old)[k]) by {
        if nested_paths(d, dirs(old)[k]) {
            lemma_first_nested_exists(dirs(old), d, k);
        }
    }
    lemma_push_nesting_free(old, e);
}

/// Registering keeps the handled directories nesting-free: no handled
/// directory becomes a child or parent of another.
pub proof fn law_register_keeps_nesting_free(
    old: Seq<(String, HandlerMapping)>,
    new: Seq<(String, HandlerMapping)>,
    request: RegisterToDirectoryRequest,
    live: Seq<bool>,
    limit: u8,
    r: RegisterDecision,
)
    requires
        nesting_free(old),
        register_answer(old, new, request, live, limit, r),
    ensures
        nesting_free(new),
{
    let d = request.directory_path@;
    if !dirs(old).contains(d) && !(exists|k: int| first_nested(dirs(old), d, k)) && new != old {
        assert(new =~= old.push(new.last()));
        lemma_unconflicted_push(old, d, new.last());
    }
}

/// Starting the handler of a directory the register request decided to
/// start, and adding it, keeps the handled directories nesting-free.
pub proof fn law_started_register_keeps_nesting_free(
    old: Seq<(String, HandlerMapping)>,
    request: RegisterToDirectoryRequest,
    live: Seq<bool>,
    limit: u8,
    e: (String, HandlerMapping),
)
    requires
        nesting_free(old),
        register_answer(old, old, request, live, limit, RegisterDecision::StartRequired),
        e.0 == request.directory_path,
    ensures
        nesting_free(old.push(e)),
{
    lemma_unconflicted_push(old, request.directory_path@, e);
}

/// A directory registered by one request is answered as already handled by
/// a second register request for it, whatever that request asks, and the
/// second request changes nothing.
pub proof fn law_register_twice_answered(
    old: Seq<(String, HandlerMapping)>,
    mid: Seq<(String, HandlerMapping)>,
    new: Seq<(String, HandlerMapping)>,
    first: RegisterToDirectoryRequest,
    second: RegisterToDirectoryRequest,
    live: Seq<bool>,
    live_again: Seq<bool>,
    limit: u8,
    limit_again: u8,
    s: crate::messages::HandlerStateResponse,
    r: RegisterDecision,
)
    requires
        register_answer(old, mid, first, live, limit, RegisterDecision::Registered(s)),
        second.directory_path@ == first.directory_path@,
        register_answer(mid, new, second, live_again, limit_again, r),
    ensures
        new == mid,
        r matches RegisterDecision::Answered(a) && a.is_alive && a.message@ == "Directory already handled by handler"@,
{
    let n = mid.len() - 1;
    assert(registered_entry(mid.last(), first, None));
    assert(dirs(mid)[n] == first.directory_path@);
    assert(dirs(mid).contains(second.directory_path@));
}

/// After a directory is registered without starting its handler, its status
/// reports the request's pipeline configuration and startup type, an empty
/// description, and a handler that is not alive.
pub proof fn law_status_after_register(
    old: Seq<(String, HandlerMapping)>,
    m: Mapping,
    request: RegisterToDirectoryRequest,
    live: Seq<bool>,
    limit: u8,
    s: crate::messages::HandlerStateResponse,
    live_after: Seq<bool>,
    summaries: Seq<(String, HandlerSummary)>,
)
    requires
        m.wf(),
        register_answer(old, m.entries(), request, live, limit, RegisterDecision::Registered(s)),
        liveness_of(m.entries(), live_after),
        m.status_answer(request.directory_path@, live_after, summaries),
    ensures
        summaries.len() == 1,
        summaries[0].0@ == request.directory_path@,
        !summaries[0].1.is_alive,
        summaries[0].1.config_path == request.handler_config_path,
        summaries[0].1.is_auto_startup == request.is_auto_startup,
        summaries[0].1.description@ == Seq::<char>::empty(),
{
    let n = m.entries().len() - 1;
    assert(registered_entry(m.entries()[n], request, None));
    assert(dirs(m.entries())[n] == request.directory_path@);
    assert(m.registered(request.directory_path@));
    m.lemma_position(request.directory_path@);
}

/// Deregistering a handler whose stop succeeded removes its directory and
/// keeps every other handled directory.
pub proof fn law_stop_remove_deregisters(
    m: Mapping,
    new: Seq<(String, HandlerMapping)>,
    d: Seq<char>,
    live: Seq<bool>,
    outcomes: Seq<Result<String, String>>,
    r: (crate::messages::HandlerStatesMapResponse, bool),
)
    requires
        m.wf(),
        m.registered(d),
        live.len() == m.entries().len(),
        outcomes.len() == m.entries().len(),
        m.stop_answer(new, d, true, live, outcomes, r),
        entry_stop_succeeds(live[m.position(d)], outcomes[m.position(d)]),
    ensures
        !dirs(new).contains(d),
        forall|x: Seq<char>| x != d && dirs(m.entries()).contains(x) ==> dirs(new).contains(x),
        r.1,
{
    m.lemma_position(d);
    let i = m.position(d);
    let old = m.entries();
    assert(new == old.remove(i));
    assert(dirs(new) =~= dirs(old).remove(i));
    if dirs(new).contains(d) {
        let k = choose|k: int| 0 <= k < dirs(new).len() && dirs(new)[k] == d;
        let ka = if k < i { k } else { k + 1 };
        assert(dirs(old)[ka] == d);
    }
    assert forall|x: Seq<char>| x != d && dirs(old).contains(x) implies dirs(new).contains(x) by {
        let k = choose|k: int| 0 <= k < dirs(old).len() && dirs(old)[k] == x;
        assert(k != i);
        let kn = if k < i { k } else { k - 1 };
        assert(dirs(new)[kn] == x);
    }
}

proof fn lemma_stop_all_keeps_dirs(
    entries: Seq<(String, HandlerMapping)>,
    live: Seq<bool>,
    outcomes: Seq<Result<String, String>>,
    n: int,
)
    requires
        0 <= n <= entries.len(),
        n <= live.len(),
        n <= outcomes.len(),
    ensures
        dirs(after_stop_all(entries, live, outcomes, false, n)) == dirs(entries.take(n)),
    decreases n,
{
    if n > 0 {
        lemma_stop_all_keeps_dirs(entries, live, outcomes, n - 1);
        assert(dirs(entries.take(n)) =~= dirs(entries.take(n - 1)).push(entries[n - 1].0@));
        let p = after_stop_all(entries, live, outcomes, false, n - 1);
        assert(dirs(p.push(stopped_entry(entries[n - 1]))) =~= dirs(p).push(entries[n - 1].0@));
        assert(dirs(p.push(entries[n - 1])) =~= dirs(p).push(entries[n - 1].0@));
    } else {
        assert(dirs(entries.take(0)) =~= dirs(after_stop_all(entries, live, outcomes, false, 0)));
    }
}

/// Stopping without deregistering keeps every handled directory, in order.
pub proof fn law_stop_keeps_registrations(
    m: Mapping,
    new: Seq<(String, HandlerMapping)>,
    d: Seq<char>,
    live: Seq<bool>,
    outcomes: Seq<Result<String, String>>,
    r: (crate::messages::HandlerStatesMapResponse, bool),
)
    requires
        m.wf(),
        live.len() == m.entries().len(),
        outcomes.len() == m.entries().len(),
        m.stop_answer(new, d, false, live, outcomes, r),
    ensures
        dirs(new) == dirs(m.entries()),
        !r.1,
{
    let old = m.entries();
    if m.registered(d) {
        m.lemma_position(d);
        assert(dirs(new) =~= dirs(old));
    } else if d.len() == 0 {
        lemma_stop_all_keeps_dirs(old, live, outcomes, old.len() as int);
        assert(old.take(old.len() as int) =~= old);
    }
}

/// A handler stopped without being deregistered keeps no thread channel, so
/// it answers as not alive afterwards.
pub proof fn law_stopped_handler_is_down(
    m: Mapping,
    new: Seq<(String, HandlerMapping)>,
    d: Seq<char>,
    live: Seq<bool>,
    outcomes: Seq<Result<String, String>>,
    r: (crate::messages::HandlerStatesMapResponse, bool),
    live_after: Seq<bool>,
)
    requires
        m.wf(),
        m.registered(d),
        live.len() == m.entries().len(),
        outcomes.len() == m.entries().len(),
        m.stop_answer(new, d, false, live, outcomes, r),
        entry_stop_succeeds(live[m.position(d)], outcomes[m.position(d)]),
        liveness_of(new, live_after),
    ensures
        new[m.position(d)].0@ == d,
        !live_after[m.position(d)],
{
    m.lemma_position(d);
}

/// A handler stopped without being deregistered is started again by a start
/// request for its directory, unless the concurrent live handler limit is
/// reached.
pub proof fn law_stopped_handler_starts_again(
    m: Mapping,
    after: Mapping,
    d: Seq<char>,
    live: Seq<bool>,
    outcomes: Seq<Result<String, String>>,
    r: (crate::messages::HandlerStatesMapResponse, bool),
    live_after: Seq<bool>,
    limit: u8,
    start: Result<StartPlan, crate::messages::ServiceError>,
)
    requires
        m.wf(),
        m.registered(d),
        live.len() == m.entries().len(),
        outcomes.len() == m.entries().len(),
        m.stop_answer(after.entries(), d, false, live, outcomes, r),
        entry_stop_succeeds(live[m.position(d)], outcomes[m.position(d)]),
        after.wf(),
        liveness_of(after.entries(), live_after),
        !limit_reached(live_after, limit),
        after.start_answer(d, live_after, limit, start),
    ensures
        start matches Ok(p) && p.states_map@.len() == 0 && texts(p.to_spawn@) == seq![d],
{
    m.lemma_position(d);
    let i = m.position(d);
    assert(dirs(after.entries())[i] == d);
    assert(after.registered(d));
    after.lemma_position(d);
}

proof fn lemma_stop_all_remove_empties(
    entries: Seq<(String, HandlerMapping)>,
    live: Seq<bool>,
    outcomes: Seq<Result<String, String>>,
    n: int,
)
    requires
        0 <= n <= entries.len(),
        n <= live.len(),
        n <= outcomes.len(),
        forall|j: int| 0 <= j < n ==> entry_stop_succeeds(live[j], outcomes[j]),
    ensures
        after_stop_all(entries, live, outcomes, true, n).len() == 0,
    decreases n,
{
    if n > 0 {
        lemma_stop_all_remove_empties(entries, live, outcomes, n - 1);
    }
}

/// Stopping and deregistering every handler, when every stop succeeds,
/// leaves no handled directory.
pub proof fn law_stop_all_remove_empties(
    m: Mapping,
    new: Seq<(String, HandlerMapping)>,
    live: Seq<bool>,
    outcomes: Seq<Result<String, String>>,
    r: (crate::messages::HandlerStatesMapResponse, bool),
)
    requires
        !m.registered(Seq::<char>::empty()),
        live.len() == m.entries().len(),
        outcomes.len() == m.entries().len(),
        forall|j: int| 0 <= j < m.entries().len() ==> entry_stop_succeeds(live[j], outcomes[j]),
        m.stop_answer(new, Seq::<char>::empty(), true, live, outcomes, r),
    ensures
        new.len() == 0,
{
    lemma_stop_all_remove_empties(m.entries(), live, outcomes, m.entries().len() as int);
}

/// Applying the same modify request twice changes nothing more than applying it once.
pub proof fn law_modify_idempotent(h: HandlerMapping, request: crate::messages::ModifyHandlerRequest)
    ensures
        modified(modified(h, request), request) == modified(h, request),
{
}

/// A limit of 0 is never reached: it stands for no limit.
pub proof fn law_zero_limit_never_reached(live: Seq<bool>)
    ensures
        !limit_reached(live, 0),
{
}

/// Setting a registered directory's startup type to automatic makes the
/// service start its handler when it starts.
pub proof fn law_auto_startup_after_modify(
    m: Mapping,
    new: Seq<(String, HandlerMapping)>,
    request: ModifyHandlerRequest,
    r: Result<(), crate::messages::ServiceError>,
)
    requires
        m.wf(),
        m.registered(request.directory_path@),
        request.is_auto_startup == Some(true),
        m.modify_answer(new, request, r),
    ensures
        dirs(new.filter(|e: (String, HandlerMapping)| e.1.is_auto_startup)).contains(request.directory_path@),
{
    m.lemma_position(request.directory_path@);
    let i = m.position(request.directory_path@);
    let pred = |e: (String, HandlerMapping)| e.1.is_auto_startup;
    assert(new[i] == modified_entry(m.entries()[i], request));
    assert(pred(new[i]));
    new.lemma_filter_contains(pred, i);
    let f = new.filter(pred);
    let k = choose|k: int| 0 <= k < f.len() && f[k] == new[i];
    assert(dirs(f)[k] == request.directory_path@);
}

/// After a registered directory's handler is modified, its status reports
/// the startup type and description the request set, and otherwise what the
/// handler had.
pub proof fn law_status_after_modify(
    m: Mapping,
    after: Mapping,
    request: ModifyHandlerRequest,
    r: Result<(), crate::messages::ServiceError>,
    live: Seq<bool>,
    summaries: Seq<(String, HandlerSummary)>,
)
    requires
        m.wf(),
        m.registered(request.directory_path@),
        m.modify_answer(after.entries(), request, r),
        after.wf(),
        liveness_of(after.entries(), live),
        after.status_answer(request.directory_path@, live, summaries),
    ensures
        r is Ok,
        summaries.len() == 1,
        summaries[0].0@ == request.directory_path@,
        summaries[0].1.config_path == m.entries()[m.position(request.directory_path@)].1.handler_config_path,
        summaries[0].1.is_auto_startup == match request.is_auto_startup {
            Some(b) => b,
            None => m.entries()[m.position(request.directory_path@)].1.is_auto_startup,
        },
        summaries[0].1.description == match request.modify_description {
            Some(t) => t,
            None => m.entries()[m.position(request.directory_path@)].1.description,
        },
{
    let d = request.directory_path@;
    m.lemma_position(d);
    let i = m.position(d);
    assert(dirs(after.entries())[i] == d);
    assert(after.registered(d));
    after.lemma_position(d);
}

/// A stop request for one directory (any path but the empty one, which asks
/// for all) changes no other directory's handler; the directory stays
/// registered exactly when it was and was not removed, that is unless removal
/// was asked and the answer is not alive; a stop without removal only drops
/// the stopped handler's thread channel; and the mapping is to be saved only
/// when removal was asked and the answer is not alive (for a registered
/// directory, exactly then).
pub proof fn law_stop_changes_only_its_directory(
    m: Mapping,
    new: Seq<(String, HandlerMapping)>,
    d: Seq<char>,
    remove: bool,
    live: Seq<bool>,
    outcomes: Seq<Result<String, String>>,
    r: (crate::messages::HandlerStatesMapResponse, bool),
)
    requires
        m.wf(),
        m.registered(d) || d.len() > 0,
        live.len() == m.entries().len(),
        outcomes.len() == m.entries().len(),
        m.stop_answer(new, d, remove, live, outcomes, r),
    ensures
        by_directory(new).remove(d) == by_directory(m.entries()).remove(d),
        dirs(new).contains(d) <==> (m.registered(d) && !(remove && !r.0.states_map@[0].1.is_alive)),
        !remove && dirs(new).contains(d) ==> by_directory(new)[d] == with_watcher(
            by_directory(m.entries())[d],
            if r.0.states_map@[0].1.is_alive { by_directory(m.entries())[d].watcher_tx } else { None },
        ),
        r.1 ==> remove && !r.0.states_map@[0].1.is_alive,
        m.registered(d) ==> r.1 == (remove && !r.0.states_map@[0].1.is_alive),
{
    if !m.registered(d) {
        assert(new == m.entries());
        assert(by_directory(new).remove(d) =~= by_directory(m.entries()).remove(d));
    } else {
        let old = m.entries();
        m.lemma_position(d);
        let i = m.position(d);
        lemma_by_directory_at(old, i);
        let ok = entry_stop_succeeds(live[i], outcomes[i]);
        if !ok {
            assert(by_directory(new).remove(d) =~= by_directory(old).remove(d));
            assert(dirs(new)[i] == d);
            assert(with_watcher(old[i].1, old[i].1.watcher_tx) == old[i].1);
        } else if remove {
            assert(new == old.remove(i));
            lemma_remove_keeps_distinct(old, i);
            assert forall|k: Seq<char>| k != d implies (dirs(new).contains(k) <==> dirs(old).contains(k)) && (dirs(
                old,
            ).contains(k) ==> by_directory(new)[k] == by_directory(old)[k]) by {
                if dirs(old).contains(k) {
                    let j = choose|j: int| 0 <= j < dirs(old).len() && dirs(old)[j] == k;
                    assert(j != i);
                    let j2 = if j < i { j } else { j - 1 };
                    assert(new[j2] == old[j]);
                    assert(dirs(new)[j2] == k);
                    lemma_by_directory_at(old, j);
                    lemma_by_directory_at(new, j2);
                }
                if dirs(new).contains(k) {
                    let j2 = choose|j2: int| 0 <= j2 < dirs(new).len() && dirs(new)[j2] == k;
                    let j = if j2 < i { j2 } else { j2 + 1 };
                    assert(new[j2] == old[j]);
                    assert(dirs(old)[j] == k);
                }
            }
            assert(!dirs(new).contains(d)) by {
                if dirs(new).contains(d) {
                    let j2 = choose|j2: int| 0 <= j2 < dirs(new).len() && dirs(new)[j2] == d;
                    let j = if j2 < i { j2 } else { j2 + 1 };
                    assert(new[j2] == old[j]);
                    assert(dirs(old)[j] == d && dirs(old)[i] == d && j != i);
                }
            }
            assert(by_directory(new).remove(d) =~= by_directory(old).remove(d));
        } else {
            assert(new == old.update(i, stopped_entry(old[i])));
            assert(dirs(new) =~= dirs(old));
            assert forall|k: Seq<char>| k != d && dirs(old).contains(k) implies by_directory(new)[k] == by_directory(
                old,
            )[k] by {
                let j = choose|j: int| 0 <= j < dirs(old).len() && dirs(old)[j] == k;
                assert(j != i);
                lemma_by_directory_at(old, j);
                lemma_by_directory_at(new, j);
            }
            lemma_by_directory_at(new, i);
            assert(dirs(new)[i] == d);
            assert(by_directory(new).remove(d) =~= by_directory(old).remove(d));
        }
    }
}

/// A modify request for every handler (the empty path, when no directory is
/// registered under it) succeeds and changes each handler as a request for
/// its directory alone would: the startup type becomes the one asked, if
/// any, the description the one given, if any; directories, pipeline
/// configurations and thread channels stay.
pub proof fn law_modify_all_changes_each_handler(
    m: Mapping,
    new: Seq<(String, HandlerMapping)>,
    request: ModifyHandlerRequest,
    r: Result<(), crate::messages::ServiceError>,
)
    requires
        m.wf(),
        request.directory_path@.len() == 0,
        !m.registered(request.directory_path@),
        m.modify_answer(new, request, r),
    ensures
        r is Ok,
        new.len() == m.entries().len(),
        forall|j: int| 0 <= j < new.len() ==> {
            let before = m.entries()[j];
            let after = #[trigger] new[j];
            &&& after.0 == before.0
            &&& after.1.watcher_tx == before.1.watcher_tx
            &&& after.1.handler_config_path == before.1.handler_config_path
            &&& after.1.is_auto_startup == match request.is_auto_startup {
                Some(b) => b,
                None => before.1.is_auto_startup,
            }
            &&& after.1.description == match request.modify_description {
                Some(t) => t,
                None => before.1.description,
            }
        },
{
    assert forall|j: int| 0 <= j < new.len() implies #[trigger] new[j] == modified_entry(m.entries()[j], request) by {}
}

/// The status of every handler (the empty path, when no directory is
/// registered under it) reports each registered directory, in order, with
/// the summary a status request for that directory alone reports: its
/// pipeline configuration, startup type, description, and whether its
/// thread answered alive.
pub proof fn law_status_of_all_is_each_status(
    m: Mapping,
    live: Seq<bool>,
    all: Seq<(String, HandlerSummary)>,
    i: int,
    one: Seq<(String, HandlerSummary)>,
)
    requires
        m.wf(),
        live.len() == m.entries().len(),
        !m.registered(Seq::<char>::empty()),
        m.status_answer(Seq::<char>::empty(), live, all),
        0 <= i < m.entries().len(),
        m.status_answer(m.entries()[i].0@, live, one),
    ensures
        all.len() == m.entries().len(),
        all[i].0@ == m.entries()[i].0@,
        all[i].1.is_alive == live[i],
        all[i].1.config_path == m.entries()[i].1.handler_config_path,
        all[i].1.is_auto_startup == m.entries()[i].1.is_auto_startup,
        all[i].1.description == m.entries()[i].1.description,
        one.len() == 1,
        one[0].1 == all[i].1,
{
    let d = m.entries()[i].0@;
    assert(dirs(m.entries())[i] == d);
    assert(m.registered(d));
    m.lemma_position(d);
}

} // verus!
