//! The mapping of handled directories: which directory each registered
//! handler watches, and the answers the service gives about them.

use vstd::prelude::*;
use crate::daemon::handler_mapping::HandlerMapping;
use crate::messages::{HandlerChannelMessage, StartHandlerRequest};
use crate::text::same_text;

verus! {

/// The directory paths of a sequence of entries, in order.
pub open spec fn dirs(entries: Seq<(String, HandlerMapping)>) -> Seq<Seq<char>> {
    entries.map_values(|e: (String, HandlerMapping)| e.0@)
}

/// The handlers of a sequence of entries, keyed by directory.
pub open spec fn by_directory(entries: Seq<(String, HandlerMapping)>) -> Map<Seq<char>, HandlerMapping> {
    Map::new(|k: Seq<char>| dirs(entries).contains(k), |k: Seq<char>| entries[dirs(entries).index_of(k)].1)
}

/// Where directories are distinct, the handler keyed by an entry's directory is that entry's.
pub proof fn lemma_by_directory_at(entries: Seq<(String, HandlerMapping)>, j: int)
    requires
        dirs(entries).no_duplicates(),
        0 <= j < entries.len(),
    ensures
        by_directory(entries).dom().contains(entries[j].0@),
        by_directory(entries)[entries[j].0@] == entries[j].1,
{
    let ds = dirs(entries);
    let k = entries[j].0@;
    assert(ds[j] == k);
    assert(ds.contains(k));
    let i = ds.index_of(k);
    assert(0 <= i < ds.len() && ds[i] == k);
    assert(i == j);
}

/// How many of the flags are set.
pub open spec fn count_true(s: Seq<bool>) -> nat
    decreases s.len(),
{
    if s.len() == 0 {
        0
    } else {
        count_true(s.drop_last()) + if s.last() { 1nat } else { 0nat }
    }
}

/// Whether the concurrent live handler limit is reached for the given
/// liveness of the registered handlers; a limit of 0 means no limit.
pub open spec fn limit_reached(live: Seq<bool>, limit: u8) -> bool {
    limit != 0 && count_true(live) >= limit
}

/// `live` holds one answer per entry, and a handler without a thread channel
/// never answers as alive.
pub open spec fn liveness_of(entries: Seq<(String, HandlerMapping)>, live: Seq<bool>) -> bool {
    &&& live.len() == entries.len()
    &&& forall|i: int| 0 <= i < live.len() && (#[trigger] entries[i]).1.watcher_tx is None ==> !live[i]
}

pub proof fn lemma_count_true_take(s: Seq<bool>, k: int)
    requires
        0 <= k <= s.len(),
    ensures
        count_true(s.take(k)) <= count_true(s),
    decreases s.len() - k,
{
    if k < s.len() {
        lemma_count_true_take(s, k + 1);
        assert(s.take(k + 1).drop_last() =~= s.take(k));
    } else {
        assert(s.take(k) =~= s);
    }
}

pub proof fn lemma_count_true_step(s: Seq<bool>, i: int)
    requires
        0 <= i < s.len(),
    ensures
        count_true(s.take(i + 1)) == count_true(s.take(i)) + if s[i] { 1nat } else { 0nat },
{
    assert(s.take(i + 1).drop_last() =~= s.take(i));
}

/// Whether the concurrent live handler limit is reached, counting the live
/// handlers in `live`; a limit of 0 means no limit.
pub fn is_concurrent_handlers_limit_reached(live: &Vec<bool>, limit: u8) -> (r: bool)
    ensures
        r == limit_reached(live@, limit),
{
    if limit == 0 {
        return false;
    }
    let mut count: u8 = 0;
    let mut i: usize = 0;
    while i < live.len()
        invariant
            i <= live.len(),
            count == count_true(live@.take(i as int)),
            count < limit,
        decreases live.len() - i,
    {
        proof {
            lemma_count_true_step(live@, i as int);
        }
        if live[i] {
            count = count + 1;
            if count >= limit {
                proof {
                    lemma_count_true_take(live@, i + 1);
                }
                return true;
            }
        }
        i = i + 1;
    }
    assert(live@.take(live.len() as int) =~= live@);
    false
}

/// Number of set flags.
pub fn count_live(live: &Vec<bool>) -> (n: usize)
    ensures
        n == count_true(live@),
{
    let mut count: usize = 0;
    let mut i: usize = 0;
    while i < live.len()
        invariant
            i <= live.len(),
            count == count_true(live@.take(i as int)),
            count <= i,
        decreases live.len() - i,
    {
        proof {
            lemma_count_true_step(live@, i as int);
        }
        if live[i] {
            count = count + 1;
        }
        i = i + 1;
    }
    assert(live@.take(live.len() as int) =~= live@);
    count
}

/// The registered handlers, keyed by the directory each one handles.
pub struct Mapping {
    pub directory_mapping: Vec<(String, HandlerMapping)>,
}

impl Mapping {
    /// The entries in their order.
    pub open spec fn entries(&self) -> Seq<(String, HandlerMapping)> {
        self.directory_mapping@
    }

    /// No directory is registered twice.
    pub open spec fn wf(&self) -> bool {
        dirs(self.entries()).no_duplicates()
    }

    /// Whether a directory path is registered.
    pub open spec fn registered(&self, d: Seq<char>) -> bool {
        dirs(self.entries()).contains(d)
    }

    /// The position of a registered directory among the entries.
    pub open spec fn position(&self, d: Seq<char>) -> int {
        dirs(self.entries()).index_of(d)
    }

    pub proof fn lemma_position(&self, d: Seq<char>)
        requires
            self.wf(),
            self.registered(d),
        ensures
            0 <= self.position(d) < self.entries().len(),
            self.entries()[self.position(d)].0@ == d,
            forall|j: int| 0 <= j < self.entries().len() && (#[trigger] self.entries()[j]).0@ == d
                ==> j == self.position(d),
    {
        let ds = dirs(self.entries());
        let p = self.position(d);
        assert(0 <= p < ds.len() && ds[p] == d);
        assert forall|j: int| 0 <= j < self.entries().len() && (#[trigger] self.entries()[j]).0@ == d
            implies j == p by {
            assert(ds[j] == d);
        }
    }

    /// A mapping of the given entries, or `None` when a directory appears twice.
    pub fn from_entries(entries: Vec<(String, HandlerMapping)>) -> (r: Option<Mapping>)
        ensures
            r is Some <==> dirs(entries@).no_duplicates(),
            r matches Some(m) ==> m.entries() == entries@,
    {
        let ghost ds = dirs(entries@);
        let mut i: usize = 0;
        while i < entries.len()
            invariant
                i <= entries@.len(),
                ds == dirs(entries@),
                forall|a: int, b: int| 0 <= a < b < i ==> ds[a] != ds[b],
            decreases entries@.len() - i,
        {
            let mut j: usize = 0;
            while j < i
                invariant
                    j <= i < entries@.len(),
                    ds == dirs(entries@),
                    forall|a: int| 0 <= a < j ==> ds[a] != ds[i as int],
                decreases i - j,
            {
                if same_text(entries[j].0.as_str(), entries[i].0.as_str()) {
                    assert(ds[j as int] == ds[i as int]);
                    return None;
                }
                j = j + 1;
            }
            i = i + 1;
        }
        assert(ds.no_duplicates()) by {
            assert forall|a: int, b: int| 0 <= a < ds.len() && 0 <= b < ds.len() && a != b implies ds[a] != ds[b] by {
                if a < b {
                    assert(ds[a] != ds[b]);
                } else {
                    assert(ds[b] != ds[a]);
                }
            }
        }
        Some(Mapping { directory_mapping: entries })
    }

    /// A mapping with no registered directory.
    pub fn new() -> (m: Self)
        ensures
            m.entries().len() == 0,
            m.wf(),
    {
        Mapping { directory_mapping: Vec::new() }
    }

    /// Number of registered directories.
    pub fn len(&self) -> (n: usize)
        ensures
            n == self.entries().len(),
    {
        self.directory_mapping.len()
    }

    /// Whether no directory is registered.
    pub fn is_empty(&self) -> (b: bool)
        ensures
            b == (self.entries().len() == 0),
    {
        self.directory_mapping.len() == 0
    }

    /// The position of a directory among the entries, if it is registered.
    pub fn find(&self, directory_path: &str) -> (r: Option<usize>)
        requires
            self.wf(),
        ensures
            r is Some <==> self.registered(directory_path@),
            r matches Some(i) ==> i == self.position(directory_path@) && i < self.entries().len(),
    {
        let mut i: usize = 0;
        while i < self.directory_mapping.len()
            invariant
                self.wf(),
                i <= self.entries().len(),
                forall|k: int| 0 <= k < i ==> (#[trigger] self.entries()[k]).0@ != directory_path@,
            decreases self.entries().len() - i,
        {
            if same_text(self.directory_mapping[i].0.as_str(), directory_path) {
                proof {
                    assert(dirs(self.entries())[i as int] == directory_path@);
                    self.lemma_position(directory_path@);
                }
                return Some(i);
            }
            i = i + 1;
        }
        assert(!self.registered(directory_path@)) by {
            if self.registered(directory_path@) {
                let k = choose|k: int| 0 <= k < dirs(self.entries()).len()
                    && dirs(self.entries())[k] == directory_path@;
                assert(self.entries()[k].0@ == directory_path@);
            }
        }
        None
    }

    /// Whether a request about the path `d` concerns the entry at position
    /// `i`: the registered directory's entry, or every entry for an empty
    /// unregistered path.
    pub open spec fn concerns(&self, d: Seq<char>, i: int) -> bool {
        if self.registered(d) {
            i == self.position(d)
        } else {
            d.len() == 0
        }
    }

    /// The ping to send to each handler a request about `directory_path`
    /// concerns, when it has a thread channel; none to any other handler.
    pub fn ping_messages(&self, directory_path: &str) -> (r: Vec<Option<HandlerChannelMessage>>)
        requires
            self.wf(),
        ensures
            r@.len() == self.entries().len(),
            forall|i: int| 0 <= i < r@.len() ==> #[trigger] r@[i] == (if self.concerns(directory_path@, i)
                && self.entries()[i].1.watcher_tx is Some { Some(HandlerChannelMessage::Ping) } else { None }),
    {
        let found = self.find(directory_path);
        let all = directory_path.is_empty();
        let mut r: Vec<Option<HandlerChannelMessage>> = Vec::new();
        let mut i: usize = 0;
        while i < self.directory_mapping.len()
            invariant
                self.wf(),
                i <= self.entries().len(),
                r@.len() == i,
                found is Some <==> self.registered(directory_path@),
                found matches Some(p) ==> p == self.position(directory_path@),
                all == (directory_path@.len() == 0),
                forall|k: int| 0 <= k < i ==> #[trigger] r@[k] == (if self.concerns(directory_path@, k)
                    && self.entries()[k].1.watcher_tx is Some { Some(HandlerChannelMessage::Ping) } else { None }),
            decreases self.entries().len() - i,
        {
            let concerned = match found {
                Some(p) => p == i,
                None => all,
            };
            if concerned {
                r.push(self.directory_mapping[i].1.ping_message());
            } else {
                r.push(None);
            }
            i = i + 1;
        }
        r
    }

    /// Which handlers are alive, from the outcome of the ping sent to each
    /// (`None` where none was sent): alive exactly where the handler has a
    /// thread channel and its ping was received.
    pub fn liveness(&self, pings_sent: &Vec<Option<Result<(), String>>>) -> (live: Vec<bool>)
        requires
            pings_sent@.len() == self.entries().len(),
        ensures
            liveness_of(self.entries(), live@),
            forall|i: int| 0 <= i < live@.len() ==> #[trigger] live@[i] == (self.entries()[i].1.watcher_tx is Some
                && pings_sent@[i] matches Some(Ok(_))),
    {
        let mut live: Vec<bool> = Vec::new();
        let mut i: usize = 0;
        while i < self.directory_mapping.len()
            invariant
                i <= self.entries().len(),
                pings_sent@.len() == self.entries().len(),
                live@.len() == i,
                forall|k: int| 0 <= k < i ==> #[trigger] live@[k] == (self.entries()[k].1.watcher_tx is Some
                    && pings_sent@[k] matches Some(Ok(_))),
            decreases self.entries().len() - i,
        {
            let alive = self.directory_mapping[i].1.is_alive(&pings_sent[i]);
            live.push(alive);
            i = i + 1;
        }
        live
    }

    /// The directories whose handlers start with the service, in entry order.
    pub fn auto_startup_requests(&self) -> (r: Vec<StartHandlerRequest>)
        ensures
            r@.map_values(|q: StartHandlerRequest| q.directory_path@) == dirs(
                self.entries().filter(|e: (String, HandlerMapping)| e.1.is_auto_startup),
            ),
    {
        let mut r: Vec<StartHandlerRequest> = Vec::new();
        let mut i: usize = 0;
        let ghost pred = |e: (String, HandlerMapping)| e.1.is_auto_startup;
        while i < self.directory_mapping.len()
            invariant
                i <= self.entries().len(),
                pred == (|e: (String, HandlerMapping)| e.1.is_auto_startup),
                r@.map_values(|q: StartHandlerRequest| q.directory_path@) == dirs(
                    self.entries().take(i as int).filter(pred),
                ),
            decreases self.entries().len() - i,
        {
            proof {
                reveal(Seq::filter);
                let s1 = self.entries().take(i + 1);
                assert(s1.drop_last() =~= self.entries().take(i as int));
                assert(s1.last() == self.entries()[i as int]);
                assert(s1.filter(pred) == if pred(s1.last()) {
                    s1.drop_last().filter(pred).push(s1.last())
                } else {
                    s1.drop_last().filter(pred)
                });
            }
            if self.directory_mapping[i].1.is_auto_startup {
                let d = self.directory_mapping[i].0.clone();
                let ghost before = r@;
                r.push(StartHandlerRequest { directory_path: d });
                assert(pred(self.entries()[i as int]));
                assert(r@ == before.push(StartHandlerRequest { directory_path: d }));
                assert(r@.map_values(|q: StartHandlerRequest| q.directory_path@) =~= before.map_values(
                    |q: StartHandlerRequest| q.directory_path@,
                ).push(d@));
                assert(r@.map_values(|q: StartHandlerRequest| q.directory_path@) =~= dirs(
                    self.entries().take(i + 1).filter(pred),
                ));
            } else {
                assert(!pred(self.entries()[i as int]));
                assert(r@.map_values(|q: StartHandlerRequest| q.directory_path@) =~= dirs(
                    self.entries().take(i + 1).filter(pred),
                ));
            }
            i = i + 1;
        }
        assert(self.entries().take(self.entries().len() as int) =~= self.entries());
        r
    }
}

} // verus!
