//! The replicated storage of one node: the key-value state machine, the
//! applied log kept for delta snapshots, and the node's metadata, together
//! with the snapshot and merge bookkeeping that ties them.
//!
//! Every operation here is in memory. The process persists the metadata
//! records after each operation, writes and reads snapshot files, and emits
//! the metric samples collected in [`SurrealStorage::take_metric_samples`].

use vstd::prelude::*;
use crate::error::{error_text, RaftError};
use crate::merge::executor::{MergeExecutor, MergeRun};
use crate::merge::cleanup::{MergeCleanup, MergeCleanupConfig};
use crate::merge::policy::{default_policy, DeltaMergePolicy};
use crate::metrics::MergeMetrics;
use crate::merge::policy::merge_trigger;
use crate::metrics::{record_snapshot_strict_error, sample_views, strict_error_sample, MetricSample, SampleView, SnapshotStage};
use crate::snapshot::{decode_snapshot_payload, decode_snapshot_payload_spec, snapshot_payload_error, DecodedSnapshotPayload, DecodedView};
use crate::snapshot::delta::{decode_delta_payload, delta_list_bytes, delta_views, zstd_frame, DELTA_ZSTD_LEVEL};
use crate::snapshot::builder::{delta_chosen, RaftSnapshotBuilder, SnapshotKind};
use crate::snapshot::metadata::checkpoint_dir_name;
use crate::state::{AppliedState, CheckpointMetadata as PersistedCheckpointMetadata, DeltaInfo, MergeProgressState, MetadataManager, SnapshotMetaState};
use crate::storage::{apply_op, has_index, is_index_range, sorted_by_index, AppliedLog, LogEntry, LogEntryView, StateMachine};
use crate::text::{decimal, push_decimal};
use crate::types::{decode_kv_request_spec, kv_request_bytes, DeltaEntry, DeltaEntryView, KVRequest, KVResponse, KvOp, SnapshotFormat, SnapshotFormatView};
use crate::wire::opt_str_view;

verus! {

/// A delta's base index differs from the local applied index.
pub const ERR_SNAPSHOT_INSTALL_BASE_MISMATCH: &'static str = "SNAPSHOT_INSTALL_BASE_MISMATCH";
/// The payload is neither a snapshot envelope nor a first-version one.
pub const ERR_SNAPSHOT_INSTALL_INVALID_PAYLOAD: &'static str = "SNAPSHOT_INSTALL_INVALID_PAYLOAD";
/// A delta's entry list cannot be decompressed or decoded.
pub const ERR_SNAPSHOT_INSTALL_DELTA_DECODE: &'static str = "SNAPSHOT_INSTALL_DELTA_DECODE";
/// A delta entry's payload is not a request.
pub const ERR_SNAPSHOT_INSTALL_DELTA_APPLY_DECODE: &'static str = "SNAPSHOT_INSTALL_DELTA_APPLY_DECODE";

/// Text of a strict snapshot error: `{kind}: {detail}`.
pub open spec fn strict_error_text(kind: Seq<char>, detail: Seq<char>) -> Seq<char> {
    kind + ": "@ + detail
}

/// A strict snapshot error `{kind}: {detail}`, with the sample that counts it.
pub fn snapshot_error(kind: &str, stage: SnapshotStage, detail: &str, base_index: u64, applied_index: u64) -> (r: (RaftError, Vec<MetricSample>))
    ensures
        r.0 matches RaftError::Snapshot(m) && m@ == strict_error_text(kind@, detail@),
        sample_views(r.1@) == seq![strict_error_sample(kind@, stage, base_index, applied_index)],
{
    let samples = record_snapshot_strict_error(kind, stage, base_index, applied_index);
    proof { reveal_strlit(": "); }
    let mut m = kind.to_owned();
    m.append(": ");
    m.append(detail);
    (RaftError::Snapshot(m), samples)
}

// ---------------------------------------------------------------------------
// Replaying delta entries.

/// Whether an entry's payload is a request.
pub open spec fn decodable(e: DeltaEntryView) -> bool {
    decode_kv_request_spec(e.payload) is Some
}

/// The request an entry carries (meaningful when it is decodable).
pub open spec fn entry_op(e: DeltaEntryView) -> KvOp {
    match decode_kv_request_spec(e.payload) {
        Some(op) => op,
        None => KvOp::Delete { key: Seq::empty() },
    }
}

/// Whether every entry of `es` is decodable.
pub open spec fn all_decodable(es: Seq<DeltaEntryView>) -> bool {
    forall|j: int| 0 <= j < es.len() ==> decodable(#[trigger] es[j])
}

/// Position of the first entry that is not decodable (when there is one).
pub open spec fn first_bad(es: Seq<DeltaEntryView>) -> int {
    choose|k: int| 0 <= k < es.len() && !decodable(es[k]) && forall|j: int| 0 <= j < k ==> decodable(#[trigger] es[j])
}

/// Number of entries a replay applies: all of them, or those before the
/// first one that is not decodable.
pub open spec fn replayed_count(es: Seq<DeltaEntryView>) -> int {
    if all_decodable(es) { es.len() as int } else { first_bad(es) }
}

/// The key-value map after applying the requests of `es` in order.
pub open spec fn replay_kv(m: Map<Seq<char>, Seq<u8>>, es: Seq<DeltaEntryView>) -> Map<Seq<char>, Seq<u8>>
    decreases es.len(),
{
    if es.len() == 0 { m } else { apply_op(replay_kv(m, es.drop_last()), entry_op(es.last())) }
}

/// The applied log after recording the entries of `es` in order, each with
/// the re-encoded payload of its request.
pub open spec fn replay_log(l: Map<u64, LogEntryView>, es: Seq<DeltaEntryView>) -> Map<u64, LogEntryView>
    decreases es.len(),
{
    if es.len() == 0 {
        l
    } else {
        let e = es.last();
        replay_log(l, es.drop_last()).insert(e.index, LogEntryView { term: e.term, index: e.index, payload: kv_request_bytes(entry_op(e)) })
    }
}

/// The applied position after recording the entries of `es`.
pub open spec fn replay_applied(a: AppliedState, es: Seq<DeltaEntryView>) -> AppliedState {
    if es.len() == 0 { a } else { AppliedState { last_applied_index: es.last().index, last_applied_term: es.last().term } }
}

/// Detail of an entry whose payload is not a request.
pub open spec fn apply_decode_detail(index: u64) -> Seq<char> {
    "index="@ + decimal(index as nat) + ", cause=invalid request payload"@
}

// ---------------------------------------------------------------------------
// Building and installing snapshots.

/// `base` joined with the relative path `name` (as `Path::join` does).
pub open spec fn path_join(base: Seq<char>, name: Seq<char>) -> Seq<char> {
    if base.len() == 0 { name } else if base.last() == '/' { base + name } else { base + "/"@ + name }
}

/// Computes [`path_join`] for a relative `name`.
pub fn join_path(base: &str, name: &str) -> (s: String)
    ensures
        s@ == path_join(base@, name@),
{
    proof { reveal_strlit("/"); }
    let n = base.unicode_len();
    if n == 0 {
        return name.to_owned();
    }
    let mut s = base.to_owned();
    if base.get_char(n - 1) != '/' {
        s.append("/");
    }
    s.append(name);
    s
}

/// Outcome of installing a snapshot.
#[derive(Debug, Clone, Copy, PartialEq, Eq)]
pub enum InstallOutcome {
    /// A delta was applied entry by entry.
    AppliedDelta,
    /// A full snapshot: the process restores its archive.
    RestoreFull,
}

/// Where a built full snapshot's checkpoint lies.
pub open spec fn full_checkpoint_path(m: crate::types::DeltaMetadataView) -> Seq<char> {
    match m.format {
        SnapshotFormatView::Full(cm) => path_join(cm.checkpoint_dir, checkpoint_dir_name(cm.timestamp)),
        SnapshotFormatView::Delta { .. } => "target/checkpoints/checkpoint_"@ + decimal(m.created_at as nat),
    }
}

/// Creation time recorded for a built full snapshot's checkpoint.
pub open spec fn full_checkpoint_time(m: crate::types::DeltaMetadataView) -> u64 {
    match m.format {
        SnapshotFormatView::Full(cm) => cm.timestamp,
        SnapshotFormatView::Delta { .. } => m.created_at,
    }
}

/// `a + b`, saturating at the type's maximum.
pub open spec fn sat_add64(a: u64, b: u64) -> u64 {
    if a + b <= u64::MAX { (a + b) as u64 } else { u64::MAX }
}

/// The snapshot chain `r` records the built snapshot `d` (taken at log
/// position `index`, `term`) on top of `s`: a full snapshot resets the chain
/// to its checkpoint, a delta is appended to the chain.
pub open spec fn records_built(r: SnapshotMetaState, s: SnapshotMetaState, d: DecodedView, index: u64, term: u64) -> bool {
    match d {
        DecodedView::Full(m) => {
            &&& r.last_checkpoint matches Some(cp) && {
                &&& cp.checkpoint_index == index
                &&& cp.checkpoint_term == term
                &&& cp.sequence_number == 0
                &&& cp.created_at == full_checkpoint_time(m)
                &&& opt_str_view(cp.checkpoint_path) == Some(full_checkpoint_path(m))
            }
            &&& r.delta_chain@.len() == 0
            &&& r.total_delta_bytes == 0
        },
        DecodedView::Delta { metadata, entries } => {
            let start = if entries.len() > 0 { entries[0].index } else { 0 };
            let end = if entries.len() > 0 { entries.last().index } else { start };
            &&& r.last_checkpoint == s.last_checkpoint
            &&& r.delta_chain@.len() == s.delta_chain@.len() + 1
            &&& r.delta_chain@.subrange(0, s.delta_chain@.len() as int) == s.delta_chain@
            &&& r.delta_chain@.last().start_index == start
            &&& r.delta_chain@.last().end_index == end
            &&& r.delta_chain@.last().size_bytes == metadata.size_bytes
            &&& r.delta_chain@.last().created_at == metadata.created_at
            &&& opt_str_view(r.delta_chain@.last().file_path) == metadata.file_path
            &&& r.total_delta_bytes == sat_add64(s.total_delta_bytes, metadata.size_bytes)
        },
    }
}

/// First index a delta built on `s` covers: one past the checkpoint
/// (saturating), or 1 without a checkpoint.
pub open spec fn delta_start(s: SnapshotMetaState) -> u64 {
    match s.last_checkpoint {
        Some(cp) => if cp.checkpoint_index < u64::MAX { (cp.checkpoint_index + 1) as u64 } else { cp.checkpoint_index },
        None => 1,
    }
}

/// `res` lists, in increasing index order, exactly the entries of `m` whose
/// index lies in `[start, end]`, as delta entries.
pub open spec fn is_delta_range(res: Seq<DeltaEntryView>, m: Map<u64, LogEntryView>, start: u64, end: u64) -> bool {
    &&& forall|i: int, j: int| 0 <= i < j < res.len() ==> res[i].index < res[j].index
    &&& forall|k: int| 0 <= k < res.len() ==> {
        &&& start <= #[trigger] res[k].index <= end
        &&& m.contains_key(res[k].index)
        &&& m[res[k].index] == (LogEntryView { term: res[k].term, index: res[k].index, payload: res[k].payload })
    }
    &&& forall|i: u64| start <= i <= end && #[trigger] m.contains_key(i) ==> exists|k: int| 0 <= k < res.len() && #[trigger] res[k].index == i
}

/// Whether `es` are the entries applied since the last checkpoint recorded
/// in `meta`: the entries of `log` from [`delta_start`] to the applied index,
/// in index order, and none when nothing was applied since.
pub open spec fn entries_since_checkpoint(es: Seq<DeltaEntryView>, meta: MetadataManager, log: Map<u64, LogEntryView>) -> bool {
    if meta.applied.last_applied_index >= delta_start(meta.snapshot) {
        is_delta_range(es, log, delta_start(meta.snapshot), meta.applied.last_applied_index)
    } else {
        es.len() == 0
    }
}

proof fn lemma_delta_range_prefix(a: Seq<DeltaEntryView>, b: Seq<DeltaEntryView>, m: Map<u64, LogEntryView>, start: u64, end: u64, n: int)
    requires
        is_delta_range(a, m, start, end),
        is_delta_range(b, m, start, end),
        0 <= n <= a.len(),
        n <= b.len(),
    ensures
        forall|k: int| 0 <= k < n ==> #[trigger] a[k].index == b[k].index,
    decreases n,
{
    if n > 0 {
        lemma_delta_range_prefix(a, b, m, start, end, n - 1);
        let k = n - 1;
        if a[k].index < b[k].index {
            let x = a[k].index;
            assert(start <= x <= end && m.contains_key(x));
            let j = choose|j: int| 0 <= j < b.len() && #[trigger] b[j].index == x;
            if j < k {
                assert(a[j].index == b[j].index);
                assert(a[j].index < a[k].index);
            } else if j > k {
                assert(b[k].index < b[j].index);
            }
        } else if b[k].index < a[k].index {
            let x = b[k].index;
            assert(start <= x <= end && m.contains_key(x));
            let j = choose|j: int| 0 <= j < a.len() && #[trigger] a[j].index == x;
            if j < k {
                assert(a[j].index == b[j].index);
                assert(b[j].index < b[k].index);
            } else if j > k {
                assert(a[k].index < a[j].index);
            }
        }
    }
}

/// The entries of a log within an index range, in order, are one sequence.
proof fn lemma_delta_range_unique(a: Seq<DeltaEntryView>, b: Seq<DeltaEntryView>, m: Map<u64, LogEntryView>, start: u64, end: u64)
    requires
        is_delta_range(a, m, start, end),
        is_delta_range(b, m, start, end),
    ensures
        a == b,
{
    let n = if a.len() <= b.len() { a.len() as int } else { b.len() as int };
    lemma_delta_range_prefix(a, b, m, start, end, n);
    if a.len() > b.len() {
        let x = a[n].index;
        assert(start <= x <= end && m.contains_key(x));
        let j = choose|j: int| 0 <= j < b.len() && #[trigger] b[j].index == x;
        assert(a[j].index == b[j].index);
        assert(a[j].index < a[n].index);
    } else if b.len() > a.len() {
        let x = b[n].index;
        assert(start <= x <= end && m.contains_key(x));
        let j = choose|j: int| 0 <= j < a.len() && #[trigger] a[j].index == x;
        assert(a[j].index == b[j].index);
        assert(b[j].index < b[n].index);
    }
    assert forall|k: int| 0 <= k < a.len() implies a[k] == b[k] by {
        assert(a[k].index == b[k].index);
        assert(m[a[k].index] == (LogEntryView { term: a[k].term, index: a[k].index, payload: a[k].payload }));
        assert(m[b[k].index] == (LogEntryView { term: b[k].term, index: b[k].index, payload: b[k].payload }));
    }
    assert(a =~= b);
}

/// At most one entry sequence is the one applied since the checkpoint.
proof fn lemma_entries_since_checkpoint_unique(a: Seq<DeltaEntryView>, b: Seq<DeltaEntryView>, meta: MetadataManager, log: Map<u64, LogEntryView>)
    requires
        entries_since_checkpoint(a, meta, log),
        entries_since_checkpoint(b, meta, log),
    ensures
        a == b,
{
    if meta.applied.last_applied_index >= delta_start(meta.snapshot) {
        lemma_delta_range_unique(a, b, log, delta_start(meta.snapshot), meta.applied.last_applied_index);
    } else {
        assert(a =~= b);
    }
}

// ---------------------------------------------------------------------------
// The storage.

/// Storage of one node.
#[derive(Debug)]
pub struct SurrealStorage {
    state_machine: StateMachine,
    raft_logs: AppliedLog,
    metadata: MetadataManager,
    metric_samples: Vec<MetricSample>,
    merge_executor: Option<MergeExecutor>,
}

impl SurrealStorage {
    /// The key-value map of the state machine.
    pub closed spec fn kv(&self) -> Map<Seq<char>, Seq<u8>> {
        self.state_machine@
    }

    /// The applied log, by index.
    pub closed spec fn log(&self) -> Map<u64, LogEntryView> {
        self.raft_logs@
    }

    /// Metadata records; the process persists them after each change.
    pub closed spec fn meta(&self) -> MetadataManager {
        self.metadata
    }

    /// The merge executor, when background merges are enabled.
    pub closed spec fn executor(&self) -> Option<MergeExecutor> {
        self.merge_executor
    }

    /// Enables background merges with `policy`; merge metrics carry `node_id`.
    pub fn with_merge_policy(self, policy: DeltaMergePolicy, node_id: String) -> (s: Self)
        ensures
            s.kv() == self.kv(),
            s.log() == self.log(),
            s.meta() == self.meta(),
            s.samples() == self.samples(),
            s.executor() matches Some(ex) && ex.policy() == policy && ex.max_retries() == 3,
    {
        let ex = MergeExecutor::new(policy, MergeMetrics::new(node_id), MergeCleanup::new(MergeCleanupConfig::default()));
        let mut s = self;
        s.merge_executor = Some(ex);
        s
    }

    /// Enables background merges with the default policy.
    pub fn with_default_merge(self, node_id: String) -> (s: Self)
        ensures
            s.kv() == self.kv(),
            s.log() == self.log(),
            s.meta() == self.meta(),
            s.samples() == self.samples(),
            s.executor() matches Some(ex) && ex.policy() == default_policy() && ex.max_retries() == 3,
    {
        self.with_merge_policy(DeltaMergePolicy::new(), node_id)
    }

    /// The merge executor, when background merges are enabled.
    pub fn merge_executor(&self) -> (r: Option<&MergeExecutor>)
        ensures
            match self.executor() { Some(ex) => r == Some(&ex), None => r is None },
    {
        match &self.merge_executor {
            Some(ex) => Some(ex),
            None => None,
        }
    }

    /// Metadata records.
    pub fn metadata(&self) -> (m: &MetadataManager)
        ensures
            *m == self.meta(),
    {
        &self.metadata
    }

    /// Metric samples collected and not yet taken.
    pub closed spec fn samples(&self) -> Seq<SampleView> {
        sample_views(self.metric_samples@)
    }

    /// Empty storage with fresh metadata.
    pub fn new() -> (s: Self)
        ensures
            s.kv() == Map::<Seq<char>, Seq<u8>>::empty(),
            s.log() == Map::<u64, LogEntryView>::empty(),
            s.samples() == Seq::<SampleView>::empty(),
            s.executor() is None,
            s.meta().is_fresh(),
    {
        let s = SurrealStorage {
            state_machine: StateMachine::new(),
            raft_logs: AppliedLog::new(),
            metadata: MetadataManager::new(),
            metric_samples: Vec::new(),
            merge_executor: None,
        };
        assert(s.samples() =~= Seq::<SampleView>::empty());
        s
    }

    /// Hands out the collected metric samples, oldest first.
    pub fn take_metric_samples(&mut self) -> (r: Vec<MetricSample>)
        ensures
            final(self).executor() == old(self).executor(),
            sample_views(r@) == old(self).samples(),
            final(self).samples() == Seq::<SampleView>::empty(),
            final(self).kv() == old(self).kv(),
            final(self).log() == old(self).log(),
            final(self).meta() == old(self).meta(),
    {
        let mut out: Vec<MetricSample> = Vec::new();
        std::mem::swap(&mut out, &mut self.metric_samples);
        assert(sample_views(self.metric_samples@) =~= Seq::<SampleView>::empty());
        out
    }

    fn push_samples(&mut self, more: Vec<MetricSample>)
        ensures
            final(self).executor() == old(self).executor(),
            final(self).samples() == old(self).samples() + sample_views(more@),
            final(self).kv() == old(self).kv(),
            final(self).log() == old(self).log(),
            final(self).meta() == old(self).meta(),
    {
        let mut more = more;
        let ghost m0 = more@;
        self.metric_samples.append(&mut more);
        assert(sample_views(self.metric_samples@) =~= sample_views(old(self).metric_samples@) + sample_views(m0));
    }

    /// The value stored under `key`.
    pub fn read(&self, key: &str) -> (r: Option<Vec<u8>>)
        ensures
            match r {
                Some(v) => self.kv().contains_key(key@) && self.kv()[key@] == v@,
                None => !self.kv().contains_key(key@),
            },
    {
        self.state_machine.read(key)
    }

    /// Applies a request to the state machine; it always succeeds.
    pub fn apply_request(&mut self, req: &KVRequest) -> (resp: KVResponse)
        ensures
            final(self).executor() == old(self).executor(),
            resp == KVResponse::Success,
            final(self).kv() == apply_op(old(self).kv(), req@),
            final(self).log() == old(self).log(),
            final(self).meta() == old(self).meta(),
            final(self).samples() == old(self).samples(),
    {
        self.state_machine.apply_request(req)
    }

    /// Records an applied entry (its request re-encoded as payload) and
    /// advances the applied position to it.
    pub fn append_log_entry(&mut self, term: u64, index: u64, req: &KVRequest)
        ensures
            final(self).executor() == old(self).executor(),
            final(self).log() == old(self).log().insert(index, LogEntryView { term, index, payload: kv_request_bytes(req@) }),
            final(self).meta().applied == (AppliedState { last_applied_index: index, last_applied_term: term }),
            final(self).meta().voting == old(self).meta().voting,
            final(self).meta().snapshot == old(self).meta().snapshot,
            final(self).meta().merge_progress == old(self).meta().merge_progress,
            final(self).kv() == old(self).kv(),
            final(self).samples() == old(self).samples(),
    {
        let payload = req.encode();
        let entry = LogEntry::new(term, index, payload);
        self.raft_logs.insert(entry);
        self.metadata.applied = AppliedState { last_applied_index: index, last_applied_term: term };
    }

    /// Applied entries with index in `[start_index, end_index]`, in order.
    pub fn try_get_log_entries(&self, start_index: u64, end_index: u64) -> (r: Vec<LogEntry>)
        ensures
            is_index_range(r@, self.log(), start_index, end_index),
    {
        self.raft_logs.range(start_index, end_index)
    }

    /// Re-applies the entries of a delta: each entry's request is applied to
    /// the state machine and the entry recorded as applied. An entry whose
    /// payload is not a request stops the replay with a strict
    /// `SNAPSHOT_INSTALL_DELTA_APPLY_DECODE` error; the entries before it stay
    /// applied.
    pub fn apply_delta_entries(&mut self, entries: &[DeltaEntry]) -> (r: Result<(), RaftError>)
        ensures
            final(self).executor() == old(self).executor(),
            ({
                let es = delta_views(entries@);
                let done = es.subrange(0, replayed_count(es));
                &&& (r is Ok) == all_decodable(es)
                &&& final(self).kv() == replay_kv(old(self).kv(), done)
                &&& final(self).log() == replay_log(old(self).log(), done)
                &&& final(self).meta().applied == replay_applied(old(self).meta().applied, done)
                &&& final(self).meta().voting == old(self).meta().voting
                &&& final(self).meta().snapshot == old(self).meta().snapshot
                &&& final(self).meta().merge_progress == old(self).meta().merge_progress
                &&& match r {
                    Ok(_) => final(self).samples() == old(self).samples(),
                    Err(e) => (e matches RaftError::Snapshot(m) && m@ == strict_error_text(
                        "SNAPSHOT_INSTALL_DELTA_APPLY_DECODE"@, apply_decode_detail(es[replayed_count(es)].index)))
                        && final(self).samples() == old(self).samples().push(strict_error_sample(
                            "SNAPSHOT_INSTALL_DELTA_APPLY_DECODE"@, SnapshotStage::ApplyDelta, 0, 0)),
                }
            }),
    {
        let ghost es = delta_views(entries@);
        let ghost kv0 = self.kv();
        let ghost log0 = self.log();
        let ghost ap0 = self.metadata.applied;
        let mut i: usize = 0;
        assert(es.subrange(0, 0) =~= Seq::<DeltaEntryView>::empty());
        while i < entries.len()
            invariant
                es == delta_views(entries@),
                kv0 == old(self).kv(),
                log0 == old(self).log(),
                self.executor() == old(self).executor(),
                ap0 == old(self).meta().applied,
                i <= entries@.len(),
                forall|j: int| 0 <= j < i ==> decodable(#[trigger] es[j]),
                self.kv() == replay_kv(kv0, es.subrange(0, i as int)),
                self.log() == replay_log(log0, es.subrange(0, i as int)),
                self.meta().applied == replay_applied(ap0, es.subrange(0, i as int)),
                self.meta().voting == old(self).meta().voting,
                self.meta().snapshot == old(self).meta().snapshot,
                self.meta().merge_progress == old(self).meta().merge_progress,
                self.samples() == old(self).samples(),
            decreases entries@.len() - i,
        {
            let e = &entries[i];
            proof {
                assert(es[i as int] == e@);
                assert(es.subrange(0, i + 1).drop_last() =~= es.subrange(0, i as int));
                assert(es.subrange(0, i + 1).last() == es[i as int]);
            }
            match KVRequest::decode(e.payload.as_slice()) {
                Some(req) => {
                    self.apply_request(&req);
                    self.append_log_entry(e.term, e.index, &req);
                },
                None => {
                    proof {
                        reveal_strlit("index=");
                        reveal_strlit(", cause=invalid request payload");
                        assert(!all_decodable(es));
                        let k = first_bad(es);
                        assert(0 <= i < es.len() && !decodable(es[i as int]) && forall|j: int| 0 <= j < i ==> decodable(#[trigger] es[j]));
                        assert(0 <= k < es.len() && !decodable(es[k]) && forall|j: int| 0 <= j < k ==> decodable(#[trigger] es[j]));
                        if k < i { assert(decodable(es[k])); }
                        if k > i { assert(decodable(es[i as int])); }
                        assert(replayed_count(es) == i);
                    }
                    let mut detail = String::from_str("index=");
                    push_decimal(&mut detail, e.index);
                    detail.append(", cause=invalid request payload");
                    let (err, samples) = snapshot_error(
                        ERR_SNAPSHOT_INSTALL_DELTA_APPLY_DECODE,
                        SnapshotStage::ApplyDelta,
                        detail.as_str(),
                        0,
                        0,
                    );
                    self.push_samples(samples);
                    proof {
                        assert(self.samples() =~= old(self).samples().push(strict_error_sample(
                            "SNAPSHOT_INSTALL_DELTA_APPLY_DECODE"@, SnapshotStage::ApplyDelta, 0, 0)));
                        assert(detail@ == apply_decode_detail(es[replayed_count(es)].index));
                    }
                    return Err(err);
                },
            }
            i = i + 1;
        }
        proof {
            assert(all_decodable(es));
            assert(es.subrange(0, es.len() as int) =~= es);
        }
        Ok(())
    }
    /// The entries applied since the last checkpoint, as delta entries: those
    /// with index from [`delta_start`] to the applied index.
    pub fn delta_entries_since_checkpoint(&self) -> (r: Vec<DeltaEntry>)
        ensures
            self.meta().applied.last_applied_index >= delta_start(self.meta().snapshot)
                ==> is_delta_range(delta_views(r@), self.log(), delta_start(self.meta().snapshot), self.meta().applied.last_applied_index),
            self.meta().applied.last_applied_index < delta_start(self.meta().snapshot) ==> r@.len() == 0,
    {
        let start = match &self.metadata.snapshot.last_checkpoint {
            Some(cp) => if cp.checkpoint_index < u64::MAX { cp.checkpoint_index + 1 } else { cp.checkpoint_index },
            None => 1,
        };
        let end = self.metadata.applied.last_applied_index;
        let mut out: Vec<DeltaEntry> = Vec::new();
        if end < start {
            return out;
        }
        let logs = self.try_get_log_entries(start, end);
        let mut i: usize = 0;
        while i < logs.len()
            invariant
                i <= logs@.len(),
                out@.len() == i,
                forall|k: int| 0 <= k < i ==> (#[trigger] out@[k]).term == logs@[k].term
                    && out@[k].index == logs@[k].index && out@[k].payload@ == logs@[k].payload@,
            decreases logs@.len() - i,
        {
            let l = &logs[i];
            out.push(DeltaEntry::new(l.term, l.index, l.payload.clone()));
            proof { assert(out@[i as int].payload@ == l.payload@); }
            i = i + 1;
        }
        proof {
            let d = delta_views(out@);
            assert forall|a: int, b: int| 0 <= a < b < d.len() implies d[a].index < d[b].index by {
                assert(d[a] == out@[a]@ && d[b] == out@[b]@);
            }
            assert forall|k: int| 0 <= k < d.len() implies {
                &&& start <= #[trigger] d[k].index <= end
                &&& self.log().contains_key(d[k].index)
                &&& self.log()[d[k].index] == (LogEntryView { term: d[k].term, index: d[k].index, payload: d[k].payload })
            } by {
                assert(d[k] == out@[k]@);
                assert(logs@[k]@ == (LogEntryView { term: d[k].term, index: d[k].index, payload: d[k].payload }));
            }
            assert forall|x: u64| start <= x <= end && #[trigger] self.log().contains_key(x)
                implies exists|k: int| 0 <= k < d.len() && #[trigger] d[k].index == x by {
                assert(has_index(logs@, x));
                let k = choose|k: int| 0 <= k < logs@.len() && #[trigger] logs@[k].index == x;
                assert(d.len() == logs@.len());
                assert(d[k] == out@[k]@);
                assert(d[k].index == x);
            }
        }
        out
    }

    /// Records a snapshot just built at log position (`index`, `term`) in the
    /// snapshot chain: a full snapshot becomes the new checkpoint and empties
    /// the chain, a delta joins the chain. A payload that is not a snapshot
    /// leaves the chain as it is; one whose delta cannot be read is a
    /// snapshot error.
    pub fn record_built_snapshot(&mut self, payload: &[u8], index: u64, term: u64) -> (r: Result<(), RaftError>)
        ensures
            final(self).executor() == old(self).executor(),
            final(self).kv() == old(self).kv(),
            final(self).log() == old(self).log(),
            final(self).samples() == old(self).samples(),
            final(self).meta().applied == old(self).meta().applied,
            final(self).meta().voting == old(self).meta().voting,
            final(self).meta().merge_progress == old(self).meta().merge_progress,
            match decode_snapshot_payload_spec(payload@) {
                Ok(Some(d)) => r is Ok && records_built(final(self).meta().snapshot, old(self).meta().snapshot, d, index, term),
                Ok(None) => r is Ok && final(self).meta().snapshot == old(self).meta().snapshot,
                Err(_) => r matches Err(e) && e is Snapshot && final(self).meta().snapshot == old(self).meta().snapshot,
            },
    {
        let decoded = decode_snapshot_payload(payload)?;
        match decoded {
            None => Ok(()),
            Some(DecodedSnapshotPayload::Full(meta)) => {
                let (created_at, path) = match &meta.format {
                    SnapshotFormat::Full { checkpoint_meta } => {
                        let name = checkpoint_meta.dir_name();
                        (checkpoint_meta.timestamp, join_path(checkpoint_meta.checkpoint_dir.as_str(), name.as_str()))
                    },
                    SnapshotFormat::Delta { .. } => {
                        proof { reveal_strlit("target/checkpoints/checkpoint_"); }
                        let mut p = String::from_str("target/checkpoints/checkpoint_");
                        push_decimal(&mut p, meta.created_at);
                        (meta.created_at, p)
                    },
                };
                let cp = PersistedCheckpointMetadata::new(index, term, 0, created_at).with_checkpoint_path(path);
                self.metadata.snapshot = SnapshotMetaState { last_checkpoint: Some(cp), delta_chain: Vec::new(), total_delta_bytes: 0 };
                Ok(())
            },
            Some(DecodedSnapshotPayload::Delta { metadata, entries }) => {
                let n = entries.len();
                let start_index = if n > 0 { entries[0].index } else { 0 };
                let end_index = if n > 0 { entries[n - 1].index } else { start_index };
                proof {
                    if n > 0 {
                        assert(delta_views(entries@)[0] == entries@[0]@);
                        assert(delta_views(entries@).last() == entries@[n - 1]@);
                    }
                }
                let mut info = DeltaInfo::new(start_index, end_index, metadata.size_bytes, metadata.created_at);
                match metadata.file_path {
                    Some(p) => { info = info.with_file_path(p); },
                    None => {},
                }
                let ghost chain0 = self.metadata.snapshot.delta_chain@;
                let mut chain: Vec<DeltaInfo> = Vec::new();
                std::mem::swap(&mut chain, &mut self.metadata.snapshot.delta_chain);
                chain.push(info);
                self.metadata.snapshot.delta_chain = chain;
                self.metadata.snapshot.total_delta_bytes = self.metadata.snapshot.total_delta_bytes.saturating_add(metadata.size_bytes);
                proof {
                    assert(self.metadata.snapshot.delta_chain@.subrange(0, chain0.len() as int) =~= chain0);
                }
                Ok(())
            },
        }
    }

    /// Installs a snapshot payload. A delta is applied entry by entry when
    /// its base index is the local applied index (else a strict
    /// `SNAPSHOT_INSTALL_BASE_MISMATCH` error); a full snapshot is left to the
    /// process to restore; a payload that is not a snapshot is a strict
    /// `SNAPSHOT_INSTALL_INVALID_PAYLOAD` error, one whose delta cannot be read
    /// a strict `SNAPSHOT_INSTALL_DELTA_DECODE` error.
    pub fn install_snapshot_auto(&mut self, payload: &[u8]) -> (r: Result<InstallOutcome, RaftError>)
        ensures
            final(self).executor() == old(self).executor(),
            final(self).meta().snapshot == old(self).meta().snapshot,
            final(self).meta().voting == old(self).meta().voting,
            final(self).meta().merge_progress == old(self).meta().merge_progress,
            match decode_snapshot_payload_spec(payload@) {
                Err(_) => (r matches Err(RaftError::Snapshot(m)) && m@ == strict_error_text(
                        "SNAPSHOT_INSTALL_DELTA_DECODE"@, "Snapshot error: "@ + snapshot_payload_error(payload@)))
                    && final(self).kv() == old(self).kv() && final(self).log() == old(self).log()
                    && final(self).meta().applied == old(self).meta().applied
                    && final(self).samples() == old(self).samples().push(strict_error_sample(
                        "SNAPSHOT_INSTALL_DELTA_DECODE"@, SnapshotStage::DecodePayload, 0, 0)),
                Ok(None) => (r matches Err(RaftError::Snapshot(m)) && m@ == strict_error_text(
                        "SNAPSHOT_INSTALL_INVALID_PAYLOAD"@, "unknown or invalid snapshot payload"@))
                    && final(self).kv() == old(self).kv() && final(self).log() == old(self).log()
                    && final(self).meta().applied == old(self).meta().applied
                    && final(self).samples() == old(self).samples().push(strict_error_sample(
                        "SNAPSHOT_INSTALL_INVALID_PAYLOAD"@, SnapshotStage::RejectPayload, 0, 0)),
                Ok(Some(DecodedView::Full(_))) => r == Ok::<InstallOutcome, RaftError>(InstallOutcome::RestoreFull)
                    && final(self).kv() == old(self).kv() && final(self).log() == old(self).log()
                    && final(self).meta().applied == old(self).meta().applied
                    && final(self).samples() == old(self).samples(),
                Ok(Some(DecodedView::Delta { metadata, entries })) => {
                    let base = match metadata.format {
                        SnapshotFormatView::Delta { base_index, .. } => base_index,
                        SnapshotFormatView::Full(_) => 0,
                    };
                    let applied = old(self).meta().applied.last_applied_index;
                    if applied != base {
                        &&& r matches Err(RaftError::Snapshot(m)) && m@ == strict_error_text(
                            "SNAPSHOT_INSTALL_BASE_MISMATCH"@,
                            "expected="@ + decimal(base as nat) + ", got="@ + decimal(applied as nat))
                        &&& final(self).kv() == old(self).kv() && final(self).log() == old(self).log()
                        &&& final(self).meta().applied == old(self).meta().applied
                        &&& final(self).samples() == old(self).samples().push(strict_error_sample(
                            "SNAPSHOT_INSTALL_BASE_MISMATCH"@, SnapshotStage::ValidateBase, base, applied))
                    } else {
                        let done = entries.subrange(0, replayed_count(entries));
                        &&& (r matches Ok(o) && o == InstallOutcome::AppliedDelta) == all_decodable(entries)
                        &&& final(self).kv() == replay_kv(old(self).kv(), done)
                        &&& final(self).log() == replay_log(old(self).log(), done)
                        &&& final(self).meta().applied == replay_applied(old(self).meta().applied, done)
                        &&& match r {
                            Ok(_) => final(self).samples() == old(self).samples(),
                            Err(e) => (e matches RaftError::Snapshot(m) && m@ == strict_error_text(
                                "SNAPSHOT_INSTALL_DELTA_APPLY_DECODE"@, apply_decode_detail(entries[replayed_count(entries)].index)))
                                && final(self).samples() == old(self).samples().push(strict_error_sample(
                                    "SNAPSHOT_INSTALL_DELTA_APPLY_DECODE"@, SnapshotStage::ApplyDelta, 0, 0)),
                        }
                    }
                },
            },
    {
        let decoded = match decode_snapshot_payload(payload) {
            Ok(d) => d,
            Err(e) => {
                let text = e.to_string();
                let (err, samples) = snapshot_error(ERR_SNAPSHOT_INSTALL_DELTA_DECODE, SnapshotStage::DecodePayload, text.as_str(), 0, 0);
                self.push_samples(samples);
                proof {
                    reveal_strlit("SNAPSHOT_INSTALL_DELTA_DECODE");
                    reveal_strlit("SNAPSHOT_INSTALL_DELTA_DECODE: ");
                    reveal_strlit(": ");
                    assert(self.samples() =~= old(self).samples().push(strict_error_sample(
                        "SNAPSHOT_INSTALL_DELTA_DECODE"@, SnapshotStage::DecodePayload, 0, 0)));
                    assert(text@ == "Snapshot error: "@ + snapshot_payload_error(payload@));
                }
                return Err(err);
            },
        };
        match decoded {
            Some(DecodedSnapshotPayload::Delta { metadata, entries }) => {
                let base_index = match metadata.format {
                    SnapshotFormat::Delta { base_index, .. } => base_index,
                    SnapshotFormat::Full { .. } => 0,
                };
                let applied = self.metadata.applied.last_applied_index;
                if applied != base_index {
                    proof {
                        reveal_strlit("expected=");
                        reveal_strlit(", got=");
                    }
                    let mut detail = String::from_str("expected=");
                    push_decimal(&mut detail, base_index);
                    detail.append(", got=");
                    push_decimal(&mut detail, applied);
                    let (err, samples) = snapshot_error(ERR_SNAPSHOT_INSTALL_BASE_MISMATCH, SnapshotStage::ValidateBase, detail.as_str(), base_index, applied);
                    self.push_samples(samples);
                    proof {
                        assert(self.samples() =~= old(self).samples().push(strict_error_sample(
                            "SNAPSHOT_INSTALL_BASE_MISMATCH"@, SnapshotStage::ValidateBase, base_index, applied)));
                    }
                    return Err(err);
                }
                self.apply_delta_entries(entries.as_slice())?;
                Ok(InstallOutcome::AppliedDelta)
            },
            Some(DecodedSnapshotPayload::Full(_)) => Ok(InstallOutcome::RestoreFull),
            None => {
                let (err, samples) = snapshot_error(
                    ERR_SNAPSHOT_INSTALL_INVALID_PAYLOAD,
                    SnapshotStage::RejectPayload,
                    "unknown or invalid snapshot payload",
                    0,
                    0,
                );
                self.push_samples(samples);
                proof {
                    assert(self.samples() =~= old(self).samples().push(strict_error_sample(
                        "SNAPSHOT_INSTALL_INVALID_PAYLOAD"@, SnapshotStage::RejectPayload, 0, 0)));
                }
                Err(err)
            },
        }
    }

    /// Resumes or abandons a merge left in progress by a previous run. Nothing
    /// happens unless a merge is recorded in progress. One that used all its
    /// attempts is abandoned (the progress record is cleared). Otherwise, with
    /// an executor, a new run starts if the policy still asks for a merge at
    /// `now`, else the record is cleared; without an executor nothing changes.
    pub fn recover_merge_state(&mut self, now: u64) -> (r: Option<MergeRun>)
        ensures
            final(self).executor() == old(self).executor(),
            final(self).kv() == old(self).kv(),
            final(self).log() == old(self).log(),
            final(self).samples() == old(self).samples(),
            final(self).meta().applied == old(self).meta().applied,
            final(self).meta().voting == old(self).meta().voting,
            final(self).meta().snapshot == old(self).meta().snapshot,
            ({
                let p = old(self).meta().merge_progress;
                let cleared = !final(self).meta().merge_progress.in_progress
                    && final(self).meta().merge_progress.trigger_reason is None
                    && final(self).meta().merge_progress.attempt == 0
                    && final(self).meta().merge_progress.max_retries == 0
                    && final(self).meta().merge_progress.started_at == 0
                    && final(self).meta().merge_progress.last_error is None;
                if !p.in_progress {
                    r is None && final(self).meta().merge_progress == p
                } else if p.attempt >= p.max_retries {
                    r is None && cleared
                } else {
                    match old(self).executor() {
                        None => r is None && final(self).meta().merge_progress == p,
                        Some(ex) => match merge_trigger(ex.policy(), old(self).meta().snapshot, now) {
                            Some(t) => r == Some(MergeRun { trigger: t, max_retries: ex.max_retries(), started_at: now, retries: 0 })
                                && final(self).meta().merge_progress == p,
                            None => r is None && cleared,
                        },
                    }
                }
            }),
    {
        if !self.metadata.merge_progress.in_progress {
            return None;
        }
        if self.metadata.merge_progress.attempt >= self.metadata.merge_progress.max_retries {
            self.metadata.merge_progress = MergeProgressState::new();
            return None;
        }
        let run = match &self.merge_executor {
            Some(ex) => Some(ex.spawn_if_needed(&self.metadata.snapshot, now)),
            None => None,
        };
        match run {
            Some(Some(run)) => Some(run),
            Some(None) => {
                self.metadata.merge_progress = MergeProgressState::new();
                None
            },
            None => None,
        }
    }

    /// Persists the records of a merge step: the merged snapshot chain (when
    /// given) and the progress record.
    pub fn save_merge_records(&mut self, snapshot: Option<SnapshotMetaState>, progress: MergeProgressState)
        ensures
            final(self).executor() == old(self).executor(),
            final(self).kv() == old(self).kv(),
            final(self).log() == old(self).log(),
            final(self).samples() == old(self).samples(),
            final(self).meta().applied == old(self).meta().applied,
            final(self).meta().voting == old(self).meta().voting,
            final(self).meta().merge_progress == progress,
            final(self).meta().snapshot == match snapshot { Some(s) => s, None => old(self).meta().snapshot },
    {
        match snapshot {
            Some(s) => { self.metadata.snapshot = s; },
            None => {},
        }
        self.metadata.merge_progress = progress;
    }


}

/// Payload of a committed log entry, as far as the state machine is
/// concerned.
#[derive(Debug, Clone)]
pub enum CommittedPayload {
    /// No operation (a new leader's first entry).
    Blank,
    /// A membership change; the consensus layer keeps the membership.
    Membership,
    /// A client request.
    Normal(KVRequest),
}

impl SurrealStorage {
    /// Applies a committed entry at (`term`, `index`): a request is applied
    /// to the state machine and recorded in the applied log; every entry
    /// advances the applied position. The answer is always `Success`.
    pub fn apply_committed(&mut self, term: u64, index: u64, payload: &CommittedPayload) -> (resp: KVResponse)
        ensures
            final(self).executor() == old(self).executor(),
            resp == KVResponse::Success,
            final(self).meta().applied == (AppliedState { last_applied_index: index, last_applied_term: term }),
            final(self).meta().voting == old(self).meta().voting,
            final(self).meta().snapshot == old(self).meta().snapshot,
            final(self).meta().merge_progress == old(self).meta().merge_progress,
            final(self).samples() == old(self).samples(),
            match payload {
                CommittedPayload::Normal(req) => final(self).kv() == apply_op(old(self).kv(), req@)
                    && final(self).log() == old(self).log().insert(index, LogEntryView { term, index, payload: kv_request_bytes(req@) }),
                _ => final(self).kv() == old(self).kv() && final(self).log() == old(self).log(),
            },
    {
        match payload {
            CommittedPayload::Normal(req) => {
                self.apply_request(req);
                self.append_log_entry(term, index, req);
            },
            _ => {
                self.metadata.applied = AppliedState { last_applied_index: index, last_applied_term: term };
            },
        }
        KVResponse::Success
    }

    /// Position (term, index) of the last applied entry, none before the
    /// first.
    pub fn applied_position(&self) -> (r: Option<(u64, u64)>)
        ensures
            r == if self.meta().applied.last_applied_index == 0 {
                None
            } else {
                Some((self.meta().applied.last_applied_term, self.meta().applied.last_applied_index))
            },
    {
        if self.metadata.applied.last_applied_index == 0 {
            None
        } else {
            Some((self.metadata.applied.last_applied_term, self.metadata.applied.last_applied_index))
        }
    }

    /// Records the position a snapshot was installed at as applied.
    pub fn finish_install(&mut self, last_log: Option<(u64, u64)>)
        ensures
            final(self).executor() == old(self).executor(),
            final(self).kv() == old(self).kv(),
            final(self).log() == old(self).log(),
            final(self).samples() == old(self).samples(),
            final(self).meta().voting == old(self).meta().voting,
            final(self).meta().snapshot == old(self).meta().snapshot,
            final(self).meta().merge_progress == old(self).meta().merge_progress,
            final(self).meta().applied == match last_log {
                Some((term, index)) => AppliedState { last_applied_index: index, last_applied_term: term },
                None => old(self).meta().applied,
            },
    {
        if let Some((term, index)) = last_log {
            self.metadata.applied = AppliedState { last_applied_index: index, last_applied_term: term };
        }
    }

    /// Records a vote.
    pub fn save_vote(&mut self, current_term: u64, voted_for: Option<u64>)
        ensures
            final(self).executor() == old(self).executor(),
            final(self).kv() == old(self).kv(),
            final(self).log() == old(self).log(),
            final(self).samples() == old(self).samples(),
            final(self).meta().voting.current_term == current_term,
            final(self).meta().voting.voted_for == voted_for,
            final(self).meta().applied == old(self).meta().applied,
            final(self).meta().snapshot == old(self).meta().snapshot,
            final(self).meta().merge_progress == old(self).meta().merge_progress,
    {
        self.metadata.voting = crate::state::VotingState { current_term, voted_for };
    }
}

impl SurrealStorage {
    /// Decides the snapshot to build at `now`: the entries applied since the
    /// last checkpoint are compressed, and a delta on that checkpoint is
    /// chosen when [`delta_chosen`] holds for them, else a full snapshot.
    pub fn plan_snapshot(&self, builder: &RaftSnapshotBuilder, now: u64) -> (r: Result<SnapshotKind, RaftError>)
        ensures
            match r {
                Ok(SnapshotKind::Delta { compressed, base_index, entry_count }) => {
                    &&& self.meta().snapshot.last_checkpoint is Some
                    &&& base_index == self.meta().snapshot.last_checkpoint->0.checkpoint_index
                    &&& self.meta().applied.last_applied_index >= delta_start(self.meta().snapshot)
                    &&& decode_delta_payload(compressed@) matches Some(es) && es.len() == entry_count
                        && is_delta_range(es, self.log(), delta_start(self.meta().snapshot), self.meta().applied.last_applied_index)
                        && delta_chosen(self.meta().snapshot, es.len(), compressed@.len() as u64, now)
                },
                Ok(SnapshotKind::Full) => forall|es: Seq<DeltaEntryView>|
                    #[trigger] entries_since_checkpoint(es, self.meta(), self.log())
                        ==> !delta_chosen(self.meta().snapshot, es.len(),
                            zstd_frame(delta_list_bytes(es), DELTA_ZSTD_LEVEL).len() as u64, now),
                Err(_) => false,
            },
    {
        let entries = self.delta_entries_since_checkpoint();
        let r = builder.choose_kind(&self.metadata.snapshot, entries.as_slice(), now);
        proof {
            let es = delta_views(entries@);
            assert(es.len() == entries@.len());
            match &r {
                Ok(SnapshotKind::Delta { compressed, base_index, entry_count }) => {
                    assert(decode_delta_payload(compressed@) == Some(es));
                    assert(es.len() == *entry_count);
                    assert(delta_chosen(self.meta().snapshot, es.len(), compressed@.len() as u64, now));
                    assert(self.meta().applied.last_applied_index >= delta_start(self.meta().snapshot));
                    assert(is_delta_range(es, self.log(), delta_start(self.meta().snapshot), self.meta().applied.last_applied_index));
                },
                Ok(SnapshotKind::Full) => {
                    assert(entries_since_checkpoint(es, self.meta(), self.log()));
                    assert forall|es2: Seq<DeltaEntryView>| #[trigger] entries_since_checkpoint(es2, self.meta(), self.log())
                        implies !delta_chosen(self.meta().snapshot, es2.len(),
                            zstd_frame(delta_list_bytes(es2), DELTA_ZSTD_LEVEL).len() as u64, now) by {
                        lemma_entries_since_checkpoint_unique(es, es2, self.meta(), self.log());
                    }
                },
                _ => {},
            }
        }
        r
    }

    /// Records a snapshot just built (see [`SurrealStorage::record_built_snapshot`])
    /// and, with an executor, starts a merge when the recorded chain calls
    /// for one at `now`.
    pub fn finish_built_snapshot(&mut self, payload: &[u8], index: u64, term: u64, now: u64) -> (r: Result<Option<MergeRun>, RaftError>)
        ensures
            final(self).executor() == old(self).executor(),
            final(self).kv() == old(self).kv(),
            final(self).log() == old(self).log(),
            final(self).meta().applied == old(self).meta().applied,
            match decode_snapshot_payload_spec(payload@) {
                Ok(Some(d)) => records_built(final(self).meta().snapshot, old(self).meta().snapshot, d, index, term),
                Ok(None) => final(self).meta().snapshot == old(self).meta().snapshot,
                Err(_) => r matches Err(e) && e is Snapshot,
            },
            match r {
                Ok(run) => match old(self).executor() {
                    None => run is None,
                    Some(ex) => match merge_trigger(ex.policy(), final(self).meta().snapshot, now) {
                        Some(t) => run == Some(MergeRun { trigger: t, max_retries: ex.max_retries(), started_at: now, retries: 0 }),
                        None => run is None,
                    },
                },
                Err(_) => decode_snapshot_payload_spec(payload@) is Err,
            },
    {
        self.record_built_snapshot(payload, index, term)?;
        match &self.merge_executor {
            Some(ex) => Ok(ex.spawn_if_needed(&self.metadata.snapshot, now)),
            None => Ok(None),
        }
    }
}

/// One end of a range of log indices.
#[derive(Debug, Clone, Copy, PartialEq, Eq)]
pub enum IndexBound {
    Included(u64),
    Excluded(u64),
    Unbounded,
}

/// First index of a range starting at `b` (one past an excluded bound,
/// saturating; 0 when unbounded).
pub open spec fn start_of(b: IndexBound) -> u64 {
    match b {
        IndexBound::Included(v) => v,
        IndexBound::Excluded(v) => if v < u64::MAX { (v + 1) as u64 } else { v },
        IndexBound::Unbounded => 0,
    }
}

/// Last index of a range ending at `b` (one before an excluded bound,
/// saturating; the largest index when unbounded).
pub open spec fn end_of(b: IndexBound) -> u64 {
    match b {
        IndexBound::Included(v) => v,
        IndexBound::Excluded(v) => if v > 0 { (v - 1) as u64 } else { 0 },
        IndexBound::Unbounded => u64::MAX,
    }
}

/// Computes [`start_of`].
pub fn range_start(b: IndexBound) -> (r: u64)
    ensures
        r == start_of(b),
{
    match b {
        IndexBound::Included(v) => v,
        IndexBound::Excluded(v) => v.saturating_add(1),
        IndexBound::Unbounded => 0,
    }
}

/// Computes [`end_of`].
pub fn range_end_inclusive(b: IndexBound) -> (r: u64)
    ensures
        r == end_of(b),
{
    match b {
        IndexBound::Included(v) => v,
        IndexBound::Excluded(v) => v.saturating_sub(1),
        IndexBound::Unbounded => u64::MAX,
    }
}

impl SurrealStorage {
    /// Applied entries within the range from `start` to `end`, in order;
    /// none when the range is empty.
    pub fn log_entries_in(&self, start: IndexBound, end: IndexBound) -> (r: Vec<LogEntry>)
        ensures
            end_of(end) < start_of(start) ==> r@.len() == 0,
            end_of(end) >= start_of(start) ==> is_index_range(r@, self.log(), start_of(start), end_of(end)),
    {
        let s = range_start(start);
        let e = range_end_inclusive(end);
        if e < s {
            return Vec::new();
        }
        self.try_get_log_entries(s, e)
    }
}

/// The key-value map after applying `ops` in order.
pub open spec fn apply_ops(m: Map<Seq<char>, Seq<u8>>, ops: Seq<KvOp>) -> Map<Seq<char>, Seq<u8>>
    decreases ops.len(),
{
    if ops.len() == 0 { m } else { apply_op(apply_ops(m, ops.drop_last()), ops.last()) }
}

/// Replaying entries whose payloads are encoded requests applies exactly
/// those requests, in order: every entry is replayed and the map reached is
/// the one the requests produce.
pub proof fn law_replay_applies_requests(m: Map<Seq<char>, Seq<u8>>, es: Seq<DeltaEntryView>, ops: Seq<KvOp>)
    requires
        es.len() == ops.len(),
        forall|i: int| 0 <= i < es.len() ==> decode_kv_request_spec(#[trigger] es[i].payload) == Some(ops[i]),
    ensures
        all_decodable(es),
        replayed_count(es) == es.len(),
        replay_kv(m, es) == apply_ops(m, ops),
    decreases es.len(),
{
    assert(all_decodable(es)) by {
        assert forall|j: int| 0 <= j < es.len() implies decodable(#[trigger] es[j]) by {
            assert(decode_kv_request_spec(es[j].payload) == Some(ops[j]));
        }
    }
    if es.len() > 0 {
        let es2 = es.drop_last();
        let ops2 = ops.drop_last();
        assert forall|i: int| 0 <= i < es2.len() implies decode_kv_request_spec(#[trigger] es2[i].payload) == Some(ops2[i]) by {
            assert(es2[i] == es[i]);
            assert(decode_kv_request_spec(es[i].payload) == Some(ops[i]));
        }
        law_replay_applies_requests(m, es2, ops2);
        assert(decode_kv_request_spec(es[es.len() - 1].payload) == Some(ops[ops.len() - 1]));
        assert(entry_op(es.last()) == ops.last());
    }
}

/// Total size of the deltas of a chain.
pub open spec fn chain_bytes(chain: Seq<DeltaInfo>) -> nat
    decreases chain.len(),
{
    if chain.len() == 0 { 0 } else { chain_bytes(chain.drop_last()) + chain.last().size_bytes as nat }
}

/// Recording a delta appends it to the chain, keeps the checkpoint and the
/// earlier deltas, and adds its size to the cumulative bytes (saturating at
/// the largest `u64`); recording a full snapshot makes it the checkpoint at
/// the given position and empties the chain and its bytes.
pub proof fn law_recorded_bytes(r: SnapshotMetaState, s: SnapshotMetaState, d: DecodedView, index: u64, term: u64)
    requires
        records_built(r, s, d, index, term),
    ensures
        d matches DecodedView::Delta { metadata, .. } ==> r.total_delta_bytes == (if s.total_delta_bytes + metadata.size_bytes <= u64::MAX {
            s.total_delta_bytes + metadata.size_bytes
        } else {
            u64::MAX as int
        }),
        d is Full ==> r.total_delta_bytes == 0 && r.delta_chain@.len() == 0
            && (r.last_checkpoint matches Some(cp) && cp.checkpoint_index == index && cp.checkpoint_term == term),
        d is Delta ==> r.last_checkpoint == s.last_checkpoint && r.delta_chain@.len() == s.delta_chain@.len() + 1
            && forall|i: int| 0 <= i < s.delta_chain@.len() ==> #[trigger] r.delta_chain@[i] == s.delta_chain@[i],
{
    if d is Delta {
        assert forall|i: int| 0 <= i < s.delta_chain@.len() implies #[trigger] r.delta_chain@[i] == s.delta_chain@[i] by {
            assert(r.delta_chain@.subrange(0, s.delta_chain@.len() as int)[i] == r.delta_chain@[i]);
        }
    }
}

/// While the cumulative bytes fit in a `u64`, recording a built snapshot
/// keeps them equal to the total size of the chain's deltas.
pub proof fn law_recorded_bytes_sum_chain(r: SnapshotMetaState, s: SnapshotMetaState, d: DecodedView, index: u64, term: u64)
    requires
        records_built(r, s, d, index, term),
        s.total_delta_bytes == chain_bytes(s.delta_chain@),
        d matches DecodedView::Delta { metadata, .. } ==> s.total_delta_bytes + metadata.size_bytes <= u64::MAX,
    ensures
        r.total_delta_bytes == chain_bytes(r.delta_chain@),
{
    match d {
        DecodedView::Full(_) => {
            assert(r.delta_chain@ =~= Seq::<DeltaInfo>::empty());
        },
        DecodedView::Delta { metadata, .. } => {
            assert(r.delta_chain@.drop_last() =~= s.delta_chain@) by {
                assert(r.delta_chain@.drop_last() =~= r.delta_chain@.subrange(0, s.delta_chain@.len() as int));
            }
        },
    }
}

} // verus!
