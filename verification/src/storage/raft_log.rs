//! The replicated log kept for consensus: entries keyed by index, appended,
//! truncated after a conflict, purged once a snapshot covers them, and the
//! log state reported from them.

use vstd::prelude::*;
use crate::storage::engine::{end_of, range_end_inclusive, range_start, start_of, IndexBound};
use crate::storage::{entries_after, entries_through, is_index_range, AppliedLog, LogEntry, LogEntryView};

verus! {

/// Position of a log entry: the term it was created in and its index.
#[derive(Debug, Clone, Copy, PartialEq, Eq, Structural)]
pub struct LogId {
    pub term: u64,
    pub index: u64,
}

/// What the log reports of itself: where it was purged up to, and the
/// position of its last entry (the purge position when it holds none).
#[derive(Debug, Clone, Copy, PartialEq, Eq, Structural)]
pub struct LogState {
    pub last_purged_log_id: Option<LogId>,
    pub last_log_id: Option<LogId>,
}

/// `m` after inserting the entries of `es` in order, a later entry
/// replacing an earlier one with the same index.
pub open spec fn insert_all(m: Map<u64, LogEntryView>, es: Seq<LogEntry>) -> Map<u64, LogEntryView>
    decreases es.len(),
{
    if es.len() == 0 {
        m
    } else {
        insert_all(m, es.drop_last()).insert(es.last().index, es.last()@)
    }
}

/// Largest index of `m` (meaningful when `m` has an entry).
pub open spec fn max_index(m: Map<u64, LogEntryView>) -> u64 {
    choose|k: u64| m.contains_key(k) && forall|j: u64| #[trigger] m.contains_key(j) ==> j <= k
}

/// The log state of entries `m` purged up to `purged`.
pub open spec fn log_state_of(m: Map<u64, LogEntryView>, purged: Option<LogId>) -> LogState {
    LogState {
        last_purged_log_id: purged,
        last_log_id: if exists|k: u64| #[trigger] m.contains_key(k) {
            Some(LogId { term: m[max_index(m)].term, index: max_index(m) })
        } else {
            purged
        },
    }
}

/// The replicated log.
pub struct RaftEntryLog {
    entries: AppliedLog,
    last_purged: Option<LogId>,
}

impl RaftEntryLog {
    /// The entries held, keyed by index.
    pub closed spec fn entries(&self) -> Map<u64, LogEntryView> {
        self.entries@
    }

    /// Position up to which the log was purged.
    pub closed spec fn last_purged(&self) -> Option<LogId> {
        self.last_purged
    }

    /// An empty log, never purged.
    pub fn new() -> (l: Self)
        ensures
            l.entries() == Map::<u64, LogEntryView>::empty(),
            l.last_purged() is None,
    {
        RaftEntryLog { entries: AppliedLog::new(), last_purged: None }
    }

    /// Appends `entries` in order, each replacing an entry with its index.
    pub fn append(&mut self, entries: Vec<LogEntry>)
        ensures
            final(self).entries() == insert_all(old(self).entries(), entries@),
            final(self).last_purged() == old(self).last_purged(),
    {
        let ghost start = self.entries@;
        let mut i: usize = 0;
        while i < entries.len()
            invariant
                i <= entries@.len(),
                self.entries@ == insert_all(start, entries@.subrange(0, i as int)),
                self.last_purged == old(self).last_purged,
            decreases entries@.len() - i,
        {
            let e = &entries[i];
            let c = LogEntry { term: e.term, index: e.index, payload: e.payload.clone() };
            assert(c.payload@ =~= e.payload@);
            self.entries.insert(c);
            proof {
                assert(entries@.subrange(0, i + 1).drop_last() =~= entries@.subrange(0, i as int));
            }
            i = i + 1;
        }
        proof {
            assert(entries@.subrange(0, entries@.len() as int) =~= entries@);
        }
    }

    /// The entries within the range from `start` to `end`, in index order;
    /// none when the range is empty.
    pub fn try_get_log_entries(&self, start: IndexBound, end: IndexBound) -> (r: Vec<LogEntry>)
        ensures
            end_of(end) < start_of(start) ==> r@.len() == 0,
            end_of(end) >= start_of(start) ==> is_index_range(r@, self.entries(), start_of(start), end_of(end)),
    {
        let s = range_start(start);
        let e = range_end_inclusive(end);
        if e < s {
            return Vec::new();
        }
        self.entries.range(s, e)
    }

    /// Drops the entries after `last` (every entry when there is none).
    pub fn truncate_after(&mut self, last: Option<LogId>)
        ensures
            final(self).entries() == match last {
                Some(l) => entries_through(old(self).entries(), l.index),
                None => Map::<u64, LogEntryView>::empty(),
            },
            final(self).last_purged() == old(self).last_purged(),
    {
        match last {
            Some(l) => self.entries.keep_through(l.index),
            None => self.entries = AppliedLog::new(),
        }
    }

    /// Drops the entries up to `log_id` and records it as the purge position.
    pub fn purge(&mut self, log_id: LogId)
        ensures
            final(self).entries() == entries_after(old(self).entries(), log_id.index),
            final(self).last_purged() == Some(log_id),
    {
        self.entries.keep_after(log_id.index);
        self.last_purged = Some(log_id);
    }

    /// The purge position and the position of the last entry.
    pub fn get_log_state(&self) -> (s: LogState)
        ensures
            s == log_state_of(self.entries(), self.last_purged()),
    {
        match self.entries.last_entry() {
            Some(e) => {
                proof {
                    let m = self.entries@;
                    assert(m.contains_key(e.index));
                    let k = max_index(m);
                    assert(m.contains_key(k) && forall|j: u64| #[trigger] m.contains_key(j) ==> j <= k);
                    assert(k <= e.index && e.index <= k);
                }
                LogState { last_purged_log_id: self.last_purged, last_log_id: Some(LogId { term: e.term, index: e.index }) }
            },
            None => {
                assert(!exists|k: u64| #[trigger] self.entries@.contains_key(k));
                LogState { last_purged_log_id: self.last_purged, last_log_id: self.last_purged }
            },
        }
    }
}

/// Appending keeps, for each index, the last appended entry with that
/// index; indices not appended keep their entry.
pub proof fn law_append_last_wins(m: Map<u64, LogEntryView>, es: Seq<LogEntry>, i: int, k: u64)
    requires
        0 <= i < es.len(),
        forall|j: int| i < j < es.len() ==> #[trigger] es[j].index != es[i].index,
    ensures
        insert_all(m, es).contains_key(es[i].index),
        insert_all(m, es)[es[i].index] == es[i]@,
        (forall|j: int| 0 <= j < es.len() ==> #[trigger] es[j].index != k) ==> insert_all(m, es).contains_key(k) == m.contains_key(k)
            && (m.contains_key(k) ==> insert_all(m, es)[k] == m[k]),
    decreases es.len(),
{
    let last = es.len() - 1;
    if i < last {
        law_append_last_wins(m, es.drop_last(), i, k);
        assert(es.drop_last()[i] == es[i]);
        assert(es[last].index != es[i].index);
    }
    if forall|j: int| 0 <= j < es.len() ==> #[trigger] es[j].index != k {
        lemma_insert_all_untouched(m, es, k);
    }
}

proof fn lemma_insert_all_untouched(m: Map<u64, LogEntryView>, es: Seq<LogEntry>, k: u64)
    requires
        forall|j: int| 0 <= j < es.len() ==> #[trigger] es[j].index != k,
    ensures
        insert_all(m, es).contains_key(k) == m.contains_key(k),
        m.contains_key(k) ==> insert_all(m, es)[k] == m[k],
    decreases es.len(),
{
    if es.len() > 0 {
        assert forall|j: int| 0 <= j < es.drop_last().len() implies #[trigger] es.drop_last()[j].index != k by {
            assert(es.drop_last()[j] == es[j]);
        }
        lemma_insert_all_untouched(m, es.drop_last(), k);
        assert(es[es.len() - 1].index != k);
    }
}

/// Purging through the last entry leaves an empty log whose state points at
/// the purge position.
pub proof fn law_purge_all_points_at_purge(m: Map<u64, LogEntryView>, id: LogId)
    requires
        forall|k: u64| #[trigger] m.contains_key(k) ==> k <= id.index,
    ensures
        entries_after(m, id.index) == Map::<u64, LogEntryView>::empty(),
        log_state_of(entries_after(m, id.index), Some(id)) == (LogState { last_purged_log_id: Some(id), last_log_id: Some(id) }),
{
    assert(entries_after(m, id.index) =~= Map::<u64, LogEntryView>::empty());
}

/// Truncating after a position keeps no later entry and leaves the earlier
/// ones as they were.
pub proof fn law_truncate_keeps_prefix(m: Map<u64, LogEntryView>, last: u64, k: u64)
    ensures
        k > last ==> !entries_through(m, last).contains_key(k),
        k <= last ==> entries_through(m, last).contains_key(k) == m.contains_key(k),
        k <= last && m.contains_key(k) ==> entries_through(m, last)[k] == m[k],
{
}

} // verus!
