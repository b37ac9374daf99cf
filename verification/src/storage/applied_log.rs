//! The applied log: log entries kept in a `BTreeMap` keyed by their index.

use vstd::prelude::*;
use std::collections::BTreeMap;
use vstd::std_specs::btree::{increasing_seq, key_obeys_cmp_spec, spec_btree_map_iter};
use vstd::std_specs::cmp::OrdSpec;
use vstd::std_specs::iter::IteratorSpec;
use crate::storage::{entries_after, entries_through, has_index, is_index_range, sorted_by_index, LogEntry, LogEntryView};

verus! {

/// The applied log: entries keyed by their index.
#[derive(Debug)]
pub struct AppliedLog {
    entries: BTreeMap<u64, LogEntry>,
}

impl View for AppliedLog {
    type V = Map<u64, LogEntryView>;

    closed spec fn view(&self) -> Map<u64, LogEntryView> {
        self.entries@.map_values(|e: LogEntry| e@)
    }
}

/// `u64` keys are ordered as the map's contract needs.
proof fn lemma_u64_keys()
    ensures
        vstd::laws_cmp::obeys_cmp::<u64>(),
        key_obeys_cmp_spec::<u64>(),
{
    broadcast use vstd::laws_cmp::group_laws_cmp;
    broadcast use vstd::std_specs::btree::group_btree_axioms;
}

/// The keys a map iteration yields increase strictly.
proof fn lemma_iter_keys_increase(v: Seq<(&u64, &LogEntry)>)
    requires
        increasing_seq(v.map_values(|kv: (&u64, &LogEntry)| *kv.0)),
    ensures
        forall|i: int, j: int| 0 <= i < j < v.len() ==> *v[i].0 < *v[j].0,
{
    broadcast use vstd::laws_cmp::group_laws_cmp;
    broadcast use vstd::std_specs::btree::group_btree_axioms;
    let ks = v.map_values(|kv: (&u64, &LogEntry)| *kv.0);
    assert forall|i: int, j: int| 0 <= i < j < v.len() implies *v[i].0 < *v[j].0 by {
        assert(ks[i] == *v[i].0 && ks[j] == *v[j].0);
        assert(ks[i].cmp_spec(&ks[j]) is Less);
    }
}

impl AppliedLog {
    #[verifier::type_invariant]
    closed spec fn inv(&self) -> bool {
        forall|k: u64| #[trigger] self.entries@.contains_key(k) ==> self.entries@[k].index == k
    }

    /// The empty log.
    pub fn new() -> (l: Self)
        ensures
            l@ == Map::<u64, LogEntryView>::empty(),
    {
        let l = AppliedLog { entries: BTreeMap::new() };
        assert(l@ =~= Map::<u64, LogEntryView>::empty());
        l
    }

    /// Records `entry` under its index, replacing an entry with the same index.
    pub fn insert(&mut self, entry: LogEntry)
        ensures
            final(self)@ == old(self)@.insert(entry.index, entry@),
    {
        broadcast use vstd::std_specs::btree::group_btree_axioms;
        proof {
            use_type_invariant(&*self);
            lemma_u64_keys();
        }
        let ghost e = entry;
        let mut m: BTreeMap<u64, LogEntry> = BTreeMap::new();
        std::mem::swap(&mut m, &mut self.entries);
        m.insert(entry.index, entry);
        self.entries = m;
        assert(self@ =~= old(self)@.insert(e.index, e@));
    }

    /// Keys of the entries whose index lies in `[lo, hi]`.
    fn keys_in(&self, lo: u64, hi: u64) -> (r: Vec<u64>)
        ensures
            forall|k: u64| #[trigger] r@.contains(k) <==> (self.entries@.contains_key(k) && lo <= k <= hi),
    {
        broadcast use vstd::std_specs::btree::group_btree_axioms;
        proof { lemma_u64_keys(); }
        let mut out: Vec<u64> = Vec::new();
        let ghost v = spec_btree_map_iter(&self.entries).remaining();
        for kv in it: self.entries.iter()
            invariant
                it.seq() == v,
                forall|k: u64| #[trigger] out@.contains(k) <==> (exists|i: int| 0 <= i < it.index() && *v[i].0 == k && lo <= k <= hi),
        {
            let ghost prev = out@;
            let k = *kv.0;
            if lo <= k && k <= hi {
                out.push(k);
                proof {
                    assert forall|x: u64| #[trigger] out@.contains(x) <==> (exists|i: int| 0 <= i < it.index() + 1 && *v[i].0 == x && lo <= x <= hi) by {
                        if out@.contains(x) && x != k {
                            let a = choose|a: int| 0 <= a < out@.len() && out@[a] == x;
                            assert(prev[a] == x);
                            assert(prev.contains(x));
                        }
                        if x == k {
                            assert(out@[prev.len() as int] == x);
                        }
                        if exists|i: int| 0 <= i < it.index() + 1 && *v[i].0 == x && lo <= x <= hi {
                            if x != k {
                                let i = choose|i: int| 0 <= i < it.index() + 1 && *v[i].0 == x && lo <= x <= hi;
                                assert(i < it.index());
                                assert(prev.contains(x));
                                let a = choose|a: int| 0 <= a < prev.len() && prev[a] == x;
                                assert(out@[a] == x);
                            }
                        }
                    }
                }
            }
        }
        proof {
            assert forall|k: u64| #[trigger] out@.contains(k) <==> (self.entries@.contains_key(k) && lo <= k <= hi) by {
                if self.entries@.contains_key(k) && lo <= k <= hi {
                    assert(v.contains((&k, &self.entries@[k])));
                    let i = choose|i: int| 0 <= i < v.len() && v[i] == (&k, &self.entries@[k]);
                    assert(*v[i].0 == k);
                }
            }
        }
        out
    }

    /// Removes the entries whose keys are listed in `keys`.
    fn remove_keys(&mut self, keys: &Vec<u64>)
        ensures
            forall|k: u64| #[trigger] final(self).entries@.contains_key(k) <==> (old(self).entries@.contains_key(k) && !keys@.contains(k)),
            forall|k: u64| #[trigger] final(self).entries@.contains_key(k) ==> final(self).entries@[k] == old(self).entries@[k],
    {
        broadcast use vstd::std_specs::btree::group_btree_axioms;
        proof {
            use_type_invariant(&*self);
            lemma_u64_keys();
        }
        let mut m: BTreeMap<u64, LogEntry> = BTreeMap::new();
        std::mem::swap(&mut m, &mut self.entries);
        let ghost start = m@;
        let mut j: usize = 0;
        while j < keys.len()
            invariant
                j <= keys@.len(),
                start == old(self).entries@,
                forall|k: u64| #[trigger] m@.contains_key(k) <==> (start.contains_key(k) && !keys@.subrange(0, j as int).contains(k)),
                forall|k: u64| #[trigger] m@.contains_key(k) ==> m@[k] == start[k],
            decreases keys@.len() - j,
        {
            let k = keys[j];
            m.remove(&k);
            proof {
                let pre = keys@.subrange(0, j as int);
                let post = keys@.subrange(0, j + 1);
                assert(post =~= pre.push(k));
                assert forall|x: u64| #[trigger] m@.contains_key(x) <==> (start.contains_key(x) && !post.contains(x)) by {
                    if pre.contains(x) {
                        let a = choose|a: int| 0 <= a < pre.len() && #[trigger] pre[a] == x;
                        assert(post[a] == x);
                    }
                    if post.contains(x) && x != k {
                        let a = choose|a: int| 0 <= a < post.len() && #[trigger] post[a] == x;
                        assert(a < j);
                        assert(pre[a] == x);
                    }
                    if x == k {
                        assert(post[j as int] == x);
                    }
                }
            }
            j = j + 1;
        }
        proof {
            assert(keys@.subrange(0, keys@.len() as int) =~= keys@);
        }
        self.entries = m;
    }

    /// Keeps the entries whose index is at most `last`.
    pub fn keep_through(&mut self, last: u64)
        ensures
            final(self)@ == entries_through(old(self)@, last),
    {
        if last < u64::MAX {
            let keys = self.keys_in(last + 1, u64::MAX);
            self.remove_keys(&keys);
        }
        assert(self@ =~= entries_through(old(self)@, last));
    }

    /// Keeps the entries whose index is above `upto`.
    pub fn keep_after(&mut self, upto: u64)
        ensures
            final(self)@ == entries_after(old(self)@, upto),
    {
        let keys = self.keys_in(0, upto);
        self.remove_keys(&keys);
        assert(self@ =~= entries_after(old(self)@, upto));
    }

    /// The entry with the largest index, if any.
    pub fn last_entry(&self) -> (r: Option<&LogEntry>)
        ensures
            match r {
                Some(e) => self@.contains_key(e.index) && self@[e.index] == e@
                    && forall|k: u64| #[trigger] self@.contains_key(k) ==> k <= e.index,
                None => self@ == Map::<u64, LogEntryView>::empty(),
            },
    {
        broadcast use vstd::std_specs::btree::group_btree_axioms;
        proof {
            use_type_invariant(self);
            lemma_u64_keys();
        }
        let mut last: Option<&LogEntry> = None;
        let ghost v = spec_btree_map_iter(&self.entries).remaining();
        for kv in it: self.entries.iter()
            invariant
                it.seq() == v,
                it.index() == 0 ==> last is None,
                it.index() > 0 ==> last == Some(v[it.index() - 1].1),
        {
            last = Some(kv.1);
        }
        proof {
            lemma_iter_keys_increase(v);
            match last {
                Some(e) => {
                    let n = v.len() - 1;
                    assert(self.entries@.contains_key(*v[n].0) && self.entries@[*v[n].0] == *v[n].1);
                    assert(e.index == *v[n].0);
                    assert forall|k: u64| #[trigger] self@.contains_key(k) implies k <= e.index by {
                        assert(self.entries@.contains_key(k));
                        assert(v.contains((&k, &self.entries@[k])));
                        let i = choose|i: int| 0 <= i < v.len() && v[i] == (&k, &self.entries@[k]);
                        if i < n {
                            assert(*v[i].0 < *v[n].0);
                        }
                    }
                },
                None => {
                    assert(v.len() == 0);
                    assert forall|k: u64| !self.entries@.contains_key(k) by {
                        if self.entries@.contains_key(k) {
                            assert(v.contains((&k, &self.entries@[k])));
                        }
                    }
                    assert(self@ =~= Map::<u64, LogEntryView>::empty());
                },
            }
        }
        last
    }

    /// The entries whose index lies in `[start, end]`, in index order.
    pub fn range(&self, start: u64, end: u64) -> (r: Vec<LogEntry>)
        ensures
            is_index_range(r@, self@, start, end),
    {
        broadcast use vstd::std_specs::btree::group_btree_axioms;
        proof {
            use_type_invariant(self);
            lemma_u64_keys();
        }
        let mut out: Vec<LogEntry> = Vec::new();
        let ghost v = spec_btree_map_iter(&self.entries).remaining();
        for kv in it: self.entries.iter()
            invariant
                it.seq() == v,
                increasing_seq(v.map_values(|kv: (&u64, &LogEntry)| *kv.0)),
                forall|k: u64| #[trigger] self.entries@.contains_key(k) ==> self.entries@[k].index == k,
                forall|i: int| 0 <= i < v.len() ==> self.entries@.contains_key(*#[trigger] v[i].0) && self.entries@[*v[i].0] == *v[i].1,
                sorted_by_index(out@),
                forall|a: int| 0 <= a < out@.len() ==> start <= #[trigger] out@[a].index <= end
                    && self.entries@.contains_key(out@[a].index) && self.entries@[out@[a].index]@ == out@[a]@,
                forall|a: int, i: int| 0 <= a < out@.len() && it.index() <= i < v.len() ==> #[trigger] out@[a].index < *#[trigger] v[i].0,
                forall|i: int| 0 <= i < it.index() && start <= *#[trigger] v[i].0 <= end ==> has_index(out@, *v[i].0),
        {
            proof {
                lemma_iter_keys_increase(v);
                assert(kv == v[it.index()]);
            }
            let k = *kv.0;
            let e = kv.1;
            if start <= k && k <= end {
                let c = LogEntry { term: e.term, index: e.index, payload: e.payload.clone() };
                assert(c.payload@ =~= e.payload@);
                let ghost before = out@;
                let ghost h = it.index();
                out.push(c);
                proof {
                    assert(e.index == k);
                    assert forall|a: int, b: int| 0 <= a < b < out@.len() implies out@[a].index < out@[b].index by {
                        if b == before.len() {
                            assert(out@[a] == before[a]);
                            assert(before[a].index < *v[h].0);
                        } else {
                            assert(out@[a] == before[a] && out@[b] == before[b]);
                        }
                    }
                    assert forall|i: int| 0 <= i < h + 1 && start <= *#[trigger] v[i].0 <= end implies has_index(out@, *v[i].0) by {
                        if i < h {
                            let a = choose|a: int| 0 <= a < before.len() && #[trigger] before[a].index == *v[i].0;
                            assert(out@[a] == before[a]);
                        } else {
                            assert(out@[before.len() as int].index == *v[i].0);
                        }
                    }
                    assert forall|a: int, i: int| 0 <= a < out@.len() && h + 1 <= i < v.len() implies #[trigger] out@[a].index < *#[trigger] v[i].0 by {
                        if a < before.len() {
                            assert(out@[a] == before[a]);
                            assert(before[a].index < *v[i].0);
                        } else {
                            assert(*v[h].0 < *v[i].0);
                        }
                    }
                }
            }
        }
        proof {
            assert forall|x: u64| start <= x <= end && #[trigger] self@.contains_key(x) implies has_index(out@, x) by {
                assert(self.entries@.contains_key(x));
                assert(v.contains((&x, &self.entries@[x])));
                let i = choose|i: int| 0 <= i < v.len() && v[i] == (&x, &self.entries@[x]);
                assert(*v[i].0 == x);
            }
            assert forall|a: int| 0 <= a < out@.len() implies {
                &&& self@.contains_key(#[trigger] out@[a].index)
                &&& self@[out@[a].index] == out@[a]@
            } by {
                assert(self.entries@.contains_key(out@[a].index));
            }
        }
        out
    }

    /// Number of entries recorded.
    pub fn len(&self) -> (n: usize)
        ensures
            n == self@.dom().len(),
    {
        broadcast use vstd::std_specs::btree::group_btree_axioms;
        proof { lemma_u64_keys(); }
        assert(self@.dom() =~= self.entries@.dom());
        self.entries.len()
    }
}

} // verus!
