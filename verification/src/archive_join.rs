//! The archive-join handler: which existing
//! files of its directory it reports when it starts, and when its watch ends.
//!
//! Instants are written as seconds since the Unix epoch and the nanoseconds
//! past that second, ordered first by the seconds, then by the nanoseconds.

use vstd::prelude::*;
use crate::patterns::local_now_instant;
use crate::pipelines::pipeline_handler::{WatchMessage, WatchStep};
use crate::text::texts;

verus! {

/// Whether instant `a` is not later than instant `b`.
pub open spec fn not_after(a: (i64, u32), b: (i64, u32)) -> bool {
    a.0 < b.0 || (a.0 == b.0 && a.1 <= b.1)
}

/// The names of the entries created at or after `from`, in their order.
pub open spec fn created_since(from: (i64, u32), entries: Seq<(String, (i64, u32))>) -> Seq<Seq<char>>
    decreases entries.len(),
{
    if entries.len() == 0 {
        seq![]
    } else {
        let p = created_since(from, entries.drop_last());
        if not_after(from, entries.last().1) {
            p.push(entries.last().0@)
        } else {
            p
        }
    }
}

/// A handler meant to rejoin archives split into parts.
pub struct ArchiveJoinHandler {
    /// The most parts of a split archive it attempts to rejoin.
    pub max_parts: u8,
    /// The largest file it attempts to compute.
    pub max_file_size: u64,
    /// Only files matching this pattern are computed.
    pub naming_regex_match: String,
    /// Only files created at or after this instant are computed.
    pub from_date_created: (i64, u32),
}

/// The settings a handler is created with, for files created from `now` on.
pub open spec fn is_default_at(h: ArchiveJoinHandler, now: (i64, u32)) -> bool {
    &&& h.max_parts == 2
    &&& h.max_file_size == 50000
    &&& h.naming_regex_match@ == "*"@
    &&& h.from_date_created == now
}

impl ArchiveJoinHandler {
    /// The default handler, for files created from `now` on.
    pub fn default_at(now: (i64, u32)) -> (h: Self)
        ensures
            is_default_at(h, now),
    {
        ArchiveJoinHandler {
            max_parts: 2,
            max_file_size: 50000,
            naming_regex_match: String::from_str("*"),
            from_date_created: now,
        }
    }

    /// The files a starting handler reports, from the directory's entries
    /// (each a file name and its creation instant): those created at or
    /// after the handler's instant, in order.
    pub fn on_startup(&self, entries: &Vec<(String, (i64, u32))>) -> (names: Vec<String>)
        ensures
            texts(names@) == created_since(self.from_date_created, entries@),
    {
        let from = self.from_date_created;
        let mut names: Vec<String> = Vec::new();
        let mut i: usize = 0;
        while i < entries.len()
            invariant
                i <= entries@.len(),
                from == self.from_date_created,
                texts(names@) == created_since(from, entries@.take(i as int)),
            decreases entries@.len() - i,
        {
            let ghost before = names@;
            assert(entries@.take(i + 1).drop_last() =~= entries@.take(i as int));
            let created = entries[i].1;
            if from.0 < created.0 || (from.0 == created.0 && from.1 <= created.1) {
                names.push(entries[i].0.clone());
                assert(texts(names@) =~= texts(before).push(entries@[i as int].0@));
            }
            i = i + 1;
        }
        assert(entries@.take(entries@.len() as int) =~= entries@);
        names
    }

    /// What the handler does with a watcher message: the error that ends the
    /// watch stops it; every other message is only reported.
    pub fn on_watch_message(&self, message: &WatchMessage) -> (r: WatchStep)
        ensures
            (*message matches WatchMessage::Error { watch_not_found } && watch_not_found) ==> r is Stop,
            !(*message matches WatchMessage::Error { watch_not_found } && watch_not_found) ==> r is Ignore,
    {
        match message {
            WatchMessage::Error { watch_not_found } => {
                if *watch_not_found {
                    WatchStep::Stop
                } else {
                    WatchStep::Ignore
                }
            },
            WatchMessage::Event { .. } => WatchStep::Ignore,
        }
    }
}

impl Default for ArchiveJoinHandler {
    /// The default handler, for files created from the current local instant on.
    fn default() -> (h: Self)
        ensures
            h.max_parts == 2,
            h.max_file_size == 50000,
            h.naming_regex_match@ == "*"@,
    {
        ArchiveJoinHandler::default_at(local_now_instant())
    }
}

} // verus!
