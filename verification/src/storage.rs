//! In-memory core of the replicated storage: the key-value state machine,
//! the index of applied log entries kept for delta snapshots, and the
//! applied position.

pub mod applied_log;
pub mod engine;
pub mod raft_log;

use vstd::prelude::*;
use crate::text::{decimal, push_decimal};
use crate::types::{kv_request_bytes, KVRequest, KVResponse, KvOp};
use vstd::utf8::encode_utf8;
pub use crate::storage::applied_log::AppliedLog;

verus! {

// ---------------------------------------------------------------------------
// The key-value state machine.

/// Whether some pair of `s` has key `k`.
pub open spec fn has_key(s: Seq<(String, Vec<u8>)>, k: Seq<char>) -> bool {
    exists|i: int| 0 <= i < s.len() && #[trigger] s[i].0@ == k
}

/// No key occurs twice in `s`.
pub open spec fn distinct_keys(s: Seq<(String, Vec<u8>)>) -> bool {
    forall|i: int, j: int| 0 <= i < s.len() && 0 <= j < s.len() && i != j ==> s[i].0@ != s[j].0@
}

/// The map an association list stands for.
pub open spec fn kv_map(s: Seq<(String, Vec<u8>)>) -> Map<Seq<char>, Seq<u8>> {
    Map::new(
        |k: Seq<char>| has_key(s, k),
        |k: Seq<char>| s[choose|i: int| 0 <= i < s.len() && #[trigger] s[i].0@ == k].1@,
    )
}

/// Effect of a request on the key-value map.
pub open spec fn apply_op(m: Map<Seq<char>, Seq<u8>>, op: KvOp) -> Map<Seq<char>, Seq<u8>> {
    match op {
        KvOp::Put { key, value } => m.insert(key, value),
        KvOp::Delete { key } => m.remove(key),
    }
}

proof fn lemma_kv_map_at(s: Seq<(String, Vec<u8>)>, i: int)
    requires
        distinct_keys(s),
        0 <= i < s.len(),
    ensures
        kv_map(s).contains_key(s[i].0@),
        kv_map(s)[s[i].0@] == s[i].1@,
{
    let k = s[i].0@;
    assert(has_key(s, k));
    let j = choose|j: int| 0 <= j < s.len() && #[trigger] s[j].0@ == k;
    assert(j == i);
}

proof fn lemma_kv_map_remove(s: Seq<(String, Vec<u8>)>, i: int)
    requires
        distinct_keys(s),
        0 <= i < s.len(),
    ensures
        distinct_keys(s.remove(i)),
        kv_map(s.remove(i)) =~= kv_map(s).remove(s[i].0@),
{
    let t = s.remove(i);
    let k = s[i].0@;
    assert forall|a: int, b: int| 0 <= a < t.len() && 0 <= b < t.len() && a != b implies t[a].0@ != t[b].0@ by {
        let a2 = if a < i { a } else { a + 1 };
        let b2 = if b < i { b } else { b + 1 };
        assert(t[a] == s[a2]);
        assert(t[b] == s[b2]);
    }
    assert forall|x: Seq<char>| #[trigger] kv_map(t).contains_key(x) <==> kv_map(s).remove(k).contains_key(x) by {
        if has_key(t, x) {
            let a = choose|a: int| 0 <= a < t.len() && #[trigger] t[a].0@ == x;
            let a2 = if a < i { a } else { a + 1 };
            assert(t[a] == s[a2]);
            assert(s[a2].0@ == x);
            assert(has_key(s, x));
            assert(a2 != i);
        }
        if has_key(s, x) && x != k {
            let a = choose|a: int| 0 <= a < s.len() && #[trigger] s[a].0@ == x;
            assert(a != i);
            let a1 = if a < i { a } else { a - 1 };
            assert(t[a1] == s[a]);
            assert(has_key(t, x));
        }
    }
    assert forall|x: Seq<char>| #[trigger] kv_map(t).contains_key(x) implies kv_map(t)[x] == kv_map(s).remove(k)[x] by {
        let a = choose|a: int| 0 <= a < t.len() && #[trigger] t[a].0@ == x;
        let a2 = if a < i { a } else { a + 1 };
        assert(t[a] == s[a2]);
        lemma_kv_map_at(t, a);
        lemma_kv_map_at(s, a2);
    }
}

proof fn lemma_kv_map_push(s: Seq<(String, Vec<u8>)>, key: String, value: Vec<u8>)
    requires
        distinct_keys(s),
        !has_key(s, key@),
    ensures
        distinct_keys(s.push((key, value))),
        kv_map(s.push((key, value))) =~= kv_map(s).insert(key@, value@),
{
    let t = s.push((key, value));
    assert forall|a: int, b: int| 0 <= a < t.len() && 0 <= b < t.len() && a != b implies t[a].0@ != t[b].0@ by {
        if a < s.len() && b < s.len() {
            assert(t[a] == s[a] && t[b] == s[b]);
        } else if a < s.len() {
            assert(t[a] == s[a]);
            assert(!(s[a].0@ == key@));
        } else {
            assert(t[b] == s[b]);
            assert(!(s[b].0@ == key@));
        }
    }
    assert forall|x: Seq<char>| #[trigger] kv_map(t).contains_key(x) <==> kv_map(s).insert(key@, value@).contains_key(x) by {
        if has_key(t, x) {
            let a = choose|a: int| 0 <= a < t.len() && #[trigger] t[a].0@ == x;
            if a < s.len() {
                assert(t[a] == s[a]);
                assert(has_key(s, x));
            }
        }
        if has_key(s, x) {
            let a = choose|a: int| 0 <= a < s.len() && #[trigger] s[a].0@ == x;
            assert(t[a] == s[a]);
            assert(has_key(t, x));
        }
        if x == key@ {
            assert(t[s.len() as int].0@ == x);
        }
    }
    assert forall|x: Seq<char>| #[trigger] kv_map(t).contains_key(x) implies kv_map(t)[x] == kv_map(s).insert(key@, value@)[x] by {
        let a = choose|a: int| 0 <= a < t.len() && #[trigger] t[a].0@ == x;
        lemma_kv_map_at(t, a);
        if a < s.len() {
            assert(t[a] == s[a]);
            lemma_kv_map_at(s, a);
        }
    }
}

/// The key-value state machine: a map from keys to values, stored as an
/// association list in which no key occurs twice.
#[derive(Debug)]
pub struct StateMachine {
    data: Vec<(String, Vec<u8>)>,
}

impl View for StateMachine {
    type V = Map<Seq<char>, Seq<u8>>;

    closed spec fn view(&self) -> Map<Seq<char>, Seq<u8>> {
        kv_map(self.data@)
    }
}

impl StateMachine {
    #[verifier::type_invariant]
    closed spec fn inv(&self) -> bool {
        distinct_keys(self.data@)
    }

    /// The empty state machine.
    pub fn new() -> (sm: Self)
        ensures
            sm@ == Map::<Seq<char>, Seq<u8>>::empty(),
    {
        let sm = StateMachine { data: Vec::new() };
        assert(sm@ =~= Map::<Seq<char>, Seq<u8>>::empty());
        sm
    }

    /// Number of keys stored.
    pub fn len(&self) -> (n: usize)
        ensures
            n == self@.dom().len(),
    {
        proof {
            use_type_invariant(self);
            lemma_kv_map_len(self.data@);
        }
        self.data.len()
    }

    /// The value stored under `key`.
    pub fn read(&self, key: &str) -> (r: Option<Vec<u8>>)
        ensures
            match r {
                Some(v) => self@.contains_key(key@) && self@[key@] == v@,
                None => !self@.contains_key(key@),
            },
    {
        proof { use_type_invariant(self); }
        let k = key.to_owned();
        match find_key(&self.data, &k) {
            Some(i) => {
                proof { lemma_kv_map_at(self.data@, i as int); }
                let v = self.data[i].1.clone();
                assert(v@ =~= self.data@[i as int].1@);
                Some(v)
            },
            None => None,
        }
    }

    /// Applies a request: `Put` stores the value under the key, `Delete`
    /// removes the key. Both always succeed.
    pub fn apply_request(&mut self, req: &KVRequest) -> (resp: KVResponse)
        ensures
            final(self)@ == apply_op(old(self)@, req@),
            resp == KVResponse::Success,
    {
        proof { use_type_invariant(&*self); }
        let mut data: Vec<(String, Vec<u8>)> = Vec::new();
        std::mem::swap(&mut data, &mut self.data);
        match req {
            KVRequest::Put { key, value } => {
                let k = key.clone();
                let v = value.clone();
                assert(v@ =~= value@);
                remove_key(&mut data, &k);
                proof { lemma_kv_map_push(data@, k, v); }
                data.push((k, v));
            },
            KVRequest::Delete { key } => {
                remove_key(&mut data, key);
            },
        }
        self.data = data;
        KVResponse::Success
    }
}

/// Position of `key` in an association list.
fn find_key(data: &Vec<(String, Vec<u8>)>, key: &String) -> (r: Option<usize>)
    ensures
        match r {
            Some(i) => i < data@.len() && data@[i as int].0@ == key@,
            None => !has_key(data@, key@),
        },
{
    let mut i: usize = 0;
    while i < data.len()
        invariant
            i <= data@.len(),
            forall|j: int| 0 <= j < i ==> data@[j].0@ != key@,
        decreases data@.len() - i,
    {
        if data[i].0 == *key {
            return Some(i);
        }
        i = i + 1;
    }
    None
}

/// Removes `key` from an association list without duplicate keys.
fn remove_key(data: &mut Vec<(String, Vec<u8>)>, key: &String)
    requires
        distinct_keys(old(data)@),
    ensures
        distinct_keys(final(data)@),
        kv_map(final(data)@) == kv_map(old(data)@).remove(key@),
        !has_key(final(data)@, key@),
{
    match find_key(data, key) {
        Some(i) => {
            proof { lemma_kv_map_remove(data@, i as int); }
            let ghost before = data@;
            data.remove(i);
            assert forall|j: int| 0 <= j < data@.len() implies #[trigger] data@[j].0@ != key@ by {
                let j2 = if j < i { j } else { j + 1 };
                assert(data@[j] == before[j2]);
                assert(j2 != i);
            }
        },
        None => {
            assert(kv_map(data@) =~= kv_map(data@).remove(key@));
        },
    }
}

impl Clone for StateMachine {
    /// A copy holding the same map.
    fn clone(&self) -> (c: Self)
        ensures
            c@ == self@,
    {
        proof { use_type_invariant(self); }
        let mut data: Vec<(String, Vec<u8>)> = Vec::new();
        let mut i: usize = 0;
        while i < self.data.len()
            invariant
                i <= self.data@.len(),
                data@.len() == i,
                forall|j: int| 0 <= j < i ==> #[trigger] data@[j].0@ == self.data@[j].0@ && data@[j].1@ == self.data@[j].1@,
            decreases self.data@.len() - i,
        {
            let k = self.data[i].0.clone();
            let v = self.data[i].1.clone();
            assert(v@ =~= self.data@[i as int].1@);
            data.push((k, v));
            i = i + 1;
        }
        proof {
            assert(distinct_keys(self.data@));
            assert forall|a: Seq<char>| #[trigger] has_key(data@, a) <==> has_key(self.data@, a) by {
                if has_key(data@, a) {
                    let j = choose|j: int| 0 <= j < data@.len() && #[trigger] data@[j].0@ == a;
                    assert(self.data@[j].0@ == a);
                }
                if has_key(self.data@, a) {
                    let j = choose|j: int| 0 <= j < self.data@.len() && #[trigger] self.data@[j].0@ == a;
                    assert(data@[j].0@ == a);
                }
            }
            assert forall|a: Seq<char>| #[trigger] kv_map(data@).contains_key(a) implies kv_map(data@)[a] == kv_map(self.data@)[a] by {
                let j = choose|j: int| 0 <= j < data@.len() && #[trigger] data@[j].0@ == a;
                lemma_kv_map_at(data@, j);
                lemma_kv_map_at(self.data@, j);
            }
            assert(kv_map(data@) =~= kv_map(self.data@));
        }
        StateMachine { data }
    }
}

impl Default for StateMachine {
    /// The empty state machine.
    fn default() -> (sm: Self)
        ensures
            sm@ == Map::<Seq<char>, Seq<u8>>::empty(),
    {
        StateMachine::new()
    }
}

proof fn lemma_kv_map_len(s: Seq<(String, Vec<u8>)>)
    requires
        distinct_keys(s),
    ensures
        kv_map(s).dom().finite(),
        kv_map(s).dom().len() == s.len(),
    decreases s.len(),
{
    if s.len() == 0 {
        assert(kv_map(s).dom() =~= Set::<Seq<char>>::empty());
    } else {
        let t = s.drop_last();
        assert(t =~= s.remove(s.len() - 1));
        lemma_kv_map_remove(s, s.len() - 1);
        lemma_kv_map_len(t);
        lemma_kv_map_at(s, s.len() - 1);
        assert(kv_map(s).dom() =~= kv_map(t).dom().insert(s.last().0@));
    }
}

/// A read after a write returns the written value.
pub proof fn law_read_after_put(m: Map<Seq<char>, Seq<u8>>, key: Seq<char>, value: Seq<u8>)
    ensures
        apply_op(m, KvOp::Put { key, value }).contains_key(key),
        apply_op(m, KvOp::Put { key, value })[key] == value,
{
}

/// A read after a delete finds nothing.
pub proof fn law_read_after_delete(m: Map<Seq<char>, Seq<u8>>, key: Seq<char>)
    ensures
        !apply_op(m, KvOp::Delete { key }).contains_key(key),
{
}

/// A request leaves every other key as it was.
pub proof fn law_other_keys_unchanged(m: Map<Seq<char>, Seq<u8>>, op: KvOp, other: Seq<char>)
    requires
        other != (match op { KvOp::Put { key, .. } => key, KvOp::Delete { key } => key }),
    ensures
        apply_op(m, op).contains_key(other) == m.contains_key(other),
        m.contains_key(other) ==> apply_op(m, op)[other] == m[other],
{
}

/// Writing the same key twice keeps only the second value; writing a key
/// and then deleting it is the same as deleting it.
pub proof fn law_last_write_wins(m: Map<Seq<char>, Seq<u8>>, key: Seq<char>, v1: Seq<u8>, v2: Seq<u8>)
    ensures
        apply_op(apply_op(m, KvOp::Put { key, value: v1 }), KvOp::Put { key, value: v2 })
            == apply_op(m, KvOp::Put { key, value: v2 }),
        apply_op(apply_op(m, KvOp::Put { key, value: v1 }), KvOp::Delete { key })
            == apply_op(m, KvOp::Delete { key }),
{
    assert(apply_op(apply_op(m, KvOp::Put { key, value: v1 }), KvOp::Put { key, value: v2 })
        =~= apply_op(m, KvOp::Put { key, value: v2 }));
    assert(apply_op(apply_op(m, KvOp::Put { key, value: v1 }), KvOp::Delete { key })
        =~= apply_op(m, KvOp::Delete { key }));
}


// ---------------------------------------------------------------------------
// Applied log entries, kept to build delta snapshots.

/// An applied log entry: its position and the postcard payload of its request.
#[derive(Debug, Clone, PartialEq, Eq)]
pub struct LogEntry {
    pub term: u64,
    pub index: u64,
    pub payload: Vec<u8>,
}

/// Mathematical form of a [`LogEntry`].
pub ghost struct LogEntryView {
    pub term: u64,
    pub index: u64,
    pub payload: Seq<u8>,
}

impl View for LogEntry {
    type V = LogEntryView;

    open spec fn view(&self) -> LogEntryView {
        LogEntryView { term: self.term, index: self.index, payload: self.payload@ }
    }
}

/// Text of the storage key of an entry: `raft_log:{term}:{index}`.
pub open spec fn storage_key_text(term: u64, index: u64) -> Seq<char> {
    "raft_log:"@ + decimal(term as nat) + ":"@ + decimal(index as nat)
}

impl LogEntry {
    pub fn new(term: u64, index: u64, payload: Vec<u8>) -> (e: Self)
        ensures
            e.term == term,
            e.index == index,
            e.payload == payload,
    {
        LogEntry { term, index, payload }
    }

    /// UTF-8 bytes of `raft_log:{term}:{index}`.
    pub fn storage_key(term: u64, index: u64) -> (k: Vec<u8>)
        ensures
            k@ == encode_utf8(storage_key_text(term, index)),
    {
        proof {
            reveal_strlit("raft_log:");
            reveal_strlit(":");
        }
        let mut s = String::from_str("raft_log:");
        push_decimal(&mut s, term);
        s.append(":");
        push_decimal(&mut s, index);
        let k = s.as_str().as_bytes_vec();
        k
    }
}

/// Entries sorted by strictly increasing index.
pub open spec fn sorted_by_index(s: Seq<LogEntry>) -> bool {
    forall|i: int, j: int| 0 <= i < j < s.len() ==> s[i].index < s[j].index
}

/// Whether some entry of `s` has index `k`.
pub open spec fn has_index(s: Seq<LogEntry>, k: u64) -> bool {
    exists|i: int| 0 <= i < s.len() && #[trigger] s[i].index == k
}



/// `res` lists, in increasing index order, exactly the entries of `m` whose
/// index lies in `[start, end]`.
pub open spec fn is_index_range(res: Seq<LogEntry>, m: Map<u64, LogEntryView>, start: u64, end: u64) -> bool {
    &&& sorted_by_index(res)
    &&& forall|k: int| 0 <= k < res.len() ==> {
        &&& start <= #[trigger] res[k].index <= end
        &&& m.contains_key(res[k].index)
        &&& m[res[k].index] == res[k]@
    }
    &&& forall|i: u64| start <= i <= end && #[trigger] m.contains_key(i) ==> has_index(res, i)
}


/// The entries of `m` whose index is at most `last`.
pub open spec fn entries_through(m: Map<u64, LogEntryView>, last: u64) -> Map<u64, LogEntryView> {
    Map::new(|k: u64| m.contains_key(k) && k <= last, |k: u64| m[k])
}

/// The entries of `m` whose index is above `upto`.
pub open spec fn entries_after(m: Map<u64, LogEntryView>, upto: u64) -> Map<u64, LogEntryView> {
    Map::new(|k: u64| m.contains_key(k) && k > upto, |k: u64| m[k])
}






} // verus!
