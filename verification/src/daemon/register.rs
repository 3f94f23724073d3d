//! Registering a pipeline configuration to a directory.

use vstd::prelude::*;
use crate::daemon::handler_mapping::HandlerMapping;
use crate::daemon::mapping::{dirs, is_concurrent_handlers_limit_reached, limit_reached, Mapping};
use crate::messages::{HandlerStateResponse, RegisterToDirectoryRequest};
use crate::text::{chars_of, decimal_string, decimal_text, join2, join3};
use crate::watch_channel::WatcherSender;

verus! {

/// A path separator: `/`, or `\\` as Windows also writes it.
pub open spec fn path_separator(c: char) -> bool {
    c == '/' || c == '\\'
}

fn is_path_separator(c: char) -> (r: bool)
    ensures
        r == path_separator(c),
{
    c == '/' || c == '\\'
}

/// The path `a` is `b` or one of its ancestors, component by component:
/// `b` begins with `a`, and there `b` ends, or a separator follows in `b`,
/// or `a` itself ends with a separator.
pub open spec fn path_within(a: Seq<char>, b: Seq<char>) -> bool {
    &&& a.len() <= b.len()
    &&& b.subrange(0, a.len() as int) == a
    &&& (a.len() == b.len() || path_separator(b[a.len() as int]) || (a.len() > 0 && path_separator(
        a[a.len() - 1],
    )))
}

/// One of the two directories lies within the other: the service's test for
/// a requested directory that is a child or a parent of a handled one.
pub open spec fn nested_paths(a: Seq<char>, b: Seq<char>) -> bool {
    path_within(a, b) || path_within(b, a)
}

/// Whether the path `ancestor` is `path` or one of its ancestors.
pub fn is_path_within(ancestor: &str, path: &str) -> (r: bool)
    ensures
        r == path_within(ancestor@, path@),
{
    let av = chars_of(ancestor);
    let pv = chars_of(path);
    let n = av.len();
    if n > pv.len() {
        return false;
    }
    let mut i: usize = 0;
    while i < n
        invariant
            av@ == ancestor@,
            pv@ == path@,
            n == av.len(),
            n <= pv.len(),
            i <= n,
            forall|t: int| 0 <= t < i ==> av@[t] == pv@[t],
        decreases n - i,
    {
        if av[i] != pv[i] {
            assert(path@.subrange(0, n as int)[i as int] != ancestor@[i as int]);
            return false;
        }
        i = i + 1;
    }
    assert(path@.subrange(0, n as int) =~= ancestor@);
    if n == pv.len() {
        true
    } else if is_path_separator(pv[n]) {
        true
    } else if n > 0 && is_path_separator(av[n - 1]) {
        true
    } else {
        false
    }
}

/// `k` is the first registered directory nested with `d`.
pub open spec fn first_nested(ds: Seq<Seq<char>>, d: Seq<char>, k: int) -> bool {
    &&& 0 <= k < ds.len()
    &&& nested_paths(d, ds[k])
    &&& forall|j: int| 0 <= j < k ==> !nested_paths(d, #[trigger] ds[j])
}

/// The refusal message for a directory nested with a handled one.
pub open spec fn conflict_message(d: Seq<char>, handled: Seq<char>) -> Seq<char> {
    if path_within(handled, d) {
        "Couldn't register\nDirectory is a child of handled directory - "@ + handled
    } else {
        "Couldn't register\nDirectory is a parent of requested directory - "@ + handled
    }
}

/// A limit written between round brackets.
pub open spec fn limit_text(limit: u8) -> Seq<char> {
    "("@ + decimal_text(limit as nat) + ")"@
}

/// The entry a register request adds, with the thread channel it was started with.
pub open spec fn registered_entry(
    e: (String, HandlerMapping),
    request: RegisterToDirectoryRequest,
    watcher_tx: Option<WatcherSender>,
) -> bool {
    &&& e.0 == request.directory_path
    &&& e.1.watcher_tx == watcher_tx
    &&& e.1.handler_config_path == request.handler_config_path
    &&& e.1.is_auto_startup == request.is_auto_startup
    &&& e.1.description@ == Seq::<char>::empty()
}

/// What a register request decides.
pub enum RegisterDecision {
    /// Nothing changed; the response is final.
    Answered(HandlerStateResponse),
    /// The directory was registered and its handler not started; the mapping is to be saved.
    Registered(HandlerStateResponse),
    /// The handler is to be started, and `complete_register` to record the outcome.
    StartRequired,
}

/// The register answer, from the entries before (`old`) to after (`new`).
pub open spec fn register_answer(
    old: Seq<(String, HandlerMapping)>,
    new: Seq<(String, HandlerMapping)>,
    request: RegisterToDirectoryRequest,
    live: Seq<bool>,
    limit: u8,
    r: RegisterDecision,
) -> bool {
    let d = request.directory_path@;
    let ds = dirs(old);
    if ds.contains(d) {
        &&& new == old
        &&& r matches RegisterDecision::Answered(s)
        &&& s.is_alive
        &&& s.message@ == "Directory already handled by handler"@
    } else if exists|k: int| first_nested(ds, d, k) {
        let k = choose|k: int| first_nested(ds, d, k);
        &&& new == old
        &&& r matches RegisterDecision::Answered(s)
        &&& !s.is_alive
        &&& s.message@ == conflict_message(d, ds[k])
    } else if !request.is_start_on_register {
        &&& new.len() == old.len() + 1
        &&& new.drop_last() == old
        &&& registered_entry(new.last(), request, None)
        &&& r matches RegisterDecision::Registered(s)
        &&& !s.is_alive
        &&& s.message@ == "Registered handler"@
    } else if limit_reached(live, limit) {
        &&& new.len() == old.len() + 1
        &&& new.drop_last() == old
        &&& registered_entry(new.last(), request, None)
        &&& r matches RegisterDecision::Registered(s)
        &&& !s.is_alive
        &&& s.message@ == "Registered handler without starting - Reached concurrent live handler limit "@
            + limit_text(limit)
    } else {
        &&& new == old
        &&& r is StartRequired
    }
}

pub proof fn lemma_dirs_push(old: Seq<(String, HandlerMapping)>, e: (String, HandlerMapping))
    ensures
        dirs(old.push(e)) == dirs(old).push(e.0@),
{
    assert(dirs(old.push(e)) =~= dirs(old).push(e.0@));
}

pub proof fn lemma_push_keeps_distinct(old: Seq<(String, HandlerMapping)>, e: (String, HandlerMapping))
    requires
        dirs(old).no_duplicates(),
        !dirs(old).contains(e.0@),
    ensures
        dirs(old.push(e)).no_duplicates(),
{
    lemma_dirs_push(old, e);
    let ds = dirs(old.push(e));
    assert forall|i: int, j: int| 0 <= i < ds.len() && 0 <= j < ds.len() && i != j implies ds[i] != ds[j] by {
        if i == old.len() {
            assert(dirs(old)[j] == ds[j]);
        } else if j == old.len() {
            assert(dirs(old)[i] == ds[i]);
        }
    }
}

/// The message of a registration that reached the concurrent live handler limit.
fn limit_reached_register_message(limit: u8) -> (m: String)
    ensures
        m@ == "Registered handler without starting - Reached concurrent live handler limit "@ + limit_text(limit),
{
    let number = decimal_string(limit as u64);
    let m = join3("Registered handler without starting - Reached concurrent live handler limit ", "(", number.as_str());
    let m = m.concat(")");
    assert(m@ =~= "Registered handler without starting - Reached concurrent live handler limit "@ + limit_text(limit));
    m
}

impl Mapping {
    /// Decides a register request for known handler liveness: an already
    /// handled directory, or one nested with a handled directory, is refused
    /// and nothing changes; otherwise the directory is registered, and its
    /// handler is to be started when the request asks so and the concurrent
    /// live handler limit is not reached.
    pub fn register_to_directory_with(
        &mut self,
        request: &RegisterToDirectoryRequest,
        live: &Vec<bool>,
        limit: u8,
    ) -> (r: RegisterDecision)
        requires
            old(self).wf(),
            live@.len() == old(self).entries().len(),
        ensures
            final(self).wf(),
            register_answer(old(self).entries(), final(self).entries(), *request, live@, limit, r),
    {
        let ghost ds = dirs(self.entries());
        let d = request.directory_path.as_str();
        if self.find(d).is_some() {
            return RegisterDecision::Answered(HandlerStateResponse {
                is_alive: true,
                message: String::from_str("Directory already handled by handler"),
            });
        }
        let mut k: usize = 0;
        while k < self.directory_mapping.len()
            invariant
                self.entries() == old(self).entries(),
                self.wf(),
                !ds.contains(d@),
                live@.len() == self.entries().len(),
                k <= self.entries().len(),
                ds == dirs(self.entries()),
                d@ == request.directory_path@,
                forall|j: int| 0 <= j < k ==> !nested_paths(d@, #[trigger] ds[j]),
            decreases self.entries().len() - k,
        {
            let handled = self.directory_mapping[k].0.as_str();
            assert(ds[k as int] == handled@);
            if is_path_within(handled, d) {
                assert(first_nested(ds, d@, k as int));
                assert((choose|k: int| first_nested(ds, d@, k)) == k as int) by {
                    let c = choose|k: int| first_nested(ds, d@, k);
                    if c < k { assert(!nested_paths(d@, ds[c])); }
                    if c > k { assert(!nested_paths(d@, ds[k as int])); }
                }
                let m = join2("Couldn't register\nDirectory is a child of handled directory - ", handled);
                return RegisterDecision::Answered(HandlerStateResponse { is_alive: false, message: m });
            } else if is_path_within(d, handled) {
                assert(first_nested(ds, d@, k as int));
                assert((choose|k: int| first_nested(ds, d@, k)) == k as int) by {
                    let c = choose|k: int| first_nested(ds, d@, k);
                    if c < k { assert(!nested_paths(d@, ds[c])); }
                    if c > k { assert(!nested_paths(d@, ds[k as int])); }
                }
                let m = join2("Couldn't register\nDirectory is a parent of requested directory - ", handled);
                return RegisterDecision::Answered(HandlerStateResponse { is_alive: false, message: m });
            }
            k = k + 1;
        }
        assert(!exists|k: int| first_nested(ds, d@, k));
        if request.is_start_on_register && !is_concurrent_handlers_limit_reached(live, limit) {
            return RegisterDecision::StartRequired;
        }
        let handler = HandlerMapping::new(
            request.handler_config_path.clone(),
            request.is_auto_startup,
            String::new(),
        );
        let entry = (request.directory_path.clone(), handler);
        proof {
            lemma_push_keeps_distinct(self.entries(), entry);
        }
        self.directory_mapping.push(entry);
        assert(self.entries().drop_last() =~= old(self).entries());
        if request.is_start_on_register {
            RegisterDecision::Registered(HandlerStateResponse {
                is_alive: false,
                message: limit_reached_register_message(limit),
            })
        } else {
            RegisterDecision::Registered(HandlerStateResponse {
                is_alive: false,
                message: String::from_str("Registered handler"),
            })
        }
    }

    /// Records the start of a registered directory's handler: on success the
    /// directory is registered with the thread's channel, on failure nothing
    /// changes and the error is reported.
    pub fn complete_register(
        &mut self,
        request: &RegisterToDirectoryRequest,
        spawned: Result<WatcherSender, String>,
    ) -> (s: HandlerStateResponse)
        requires
            old(self).wf(),
            !old(self).registered(request.directory_path@),
        ensures
            final(self).wf(),
            spawned is Ok ==> {
                &&& final(self).entries().len() == old(self).entries().len() + 1
                &&& final(self).entries().drop_last() == old(self).entries()
                &&& registered_entry(final(self).entries().last(), *request, Some(spawned->Ok_0))
                &&& s.is_alive
                &&& s.message@ == "Registered and started handler"@
            },
            spawned is Err ==> {
                &&& final(self).entries() == old(self).entries()
                &&& !s.is_alive
                &&& s.message@ == "Failed to register and start handler.\nError: "@ + spawned->Err_0@
            },
    {
        match spawned {
            Ok(tx) => {
                let mut handler = HandlerMapping::new(
                    request.handler_config_path.clone(),
                    request.is_auto_startup,
                    String::new(),
                );
                handler.watcher_tx = Some(tx);
                let entry = (request.directory_path.clone(), handler);
                proof {
                    lemma_push_keeps_distinct(self.entries(), entry);
                }
                self.directory_mapping.push(entry);
                assert(self.entries().drop_last() =~= old(self).entries());
                HandlerStateResponse { is_alive: true, message: String::from_str("Registered and started handler") }
            },
            Err(e) => HandlerStateResponse {
                is_alive: false,
                message: join2("Failed to register and start handler.\nError: ", e.as_str()),
            },
        }
    }
}

} // verus!
