//! Persistent Raft metadata: voting state, applied position, the snapshot
//! chain (last full checkpoint plus the deltas taken since) and the progress
//! record of a background merge.

use vstd::prelude::*;
use crate::types::NodeId;

verus! {

/// Voting state (persisted immediately for Raft safety).
#[derive(Debug, Clone, PartialEq, Eq)]
pub struct VotingState {
    pub current_term: u64,
    pub voted_for: Option<NodeId>,
}

impl VotingState {
    /// Term 0, no vote cast.
    pub fn new() -> (s: Self)
        ensures
            s.current_term == 0,
            s.voted_for is None,
    {
        VotingState { current_term: 0, voted_for: None }
    }
}

impl Default for VotingState {
    /// Same as [`VotingState::new`].
    fn default() -> (s: Self)
        ensures
            s.current_term == 0,
            s.voted_for is None,
    {
        Self::new()
    }
}

/// Position of the last entry applied to the state machine.
#[derive(Debug, Clone, PartialEq, Eq)]
pub struct AppliedState {
    pub last_applied_index: u64,
    pub last_applied_term: u64,
}

impl AppliedState {
    /// Nothing applied yet.
    pub fn new() -> (s: Self)
        ensures
            s.last_applied_index == 0,
            s.last_applied_term == 0,
    {
        AppliedState { last_applied_index: 0, last_applied_term: 0 }
    }
}

impl Default for AppliedState {
    /// Same as [`AppliedState::new`].
    fn default() -> (s: Self)
        ensures
            s.last_applied_index == 0,
            s.last_applied_term == 0,
    {
        Self::new()
    }
}

/// The last full checkpoint of the snapshot chain.
#[derive(Debug, Clone, PartialEq, Eq)]
pub struct CheckpointMetadata {
    /// Index of the log entry at checkpoint time.
    pub checkpoint_index: u64,
    /// Term of the log entry at checkpoint time.
    pub checkpoint_term: u64,
    /// Storage-engine sequence number for consistency verification.
    pub sequence_number: u64,
    /// Creation time (Unix seconds).
    pub created_at: u64,
    /// Where the checkpoint directory lives, when known.
    pub checkpoint_path: Option<String>,
}

impl CheckpointMetadata {
    pub fn new(index: u64, term: u64, seq: u64, timestamp: u64) -> (m: Self)
        ensures
            m.checkpoint_index == index,
            m.checkpoint_term == term,
            m.sequence_number == seq,
            m.created_at == timestamp,
            m.checkpoint_path is None,
    {
        CheckpointMetadata {
            checkpoint_index: index,
            checkpoint_term: term,
            sequence_number: seq,
            created_at: timestamp,
            checkpoint_path: None,
        }
    }

    /// The same metadata with the checkpoint directory recorded.
    pub fn with_checkpoint_path(self, path: String) -> (m: Self)
        ensures
            m == (CheckpointMetadata { checkpoint_path: Some(path), ..self }),
    {
        let mut m = self;
        m.checkpoint_path = Some(path);
        m
    }
}

/// One incremental snapshot of the chain.
#[derive(Debug, Clone, PartialEq, Eq)]
pub struct DeltaInfo {
    /// Index of the first entry in this delta.
    pub start_index: u64,
    /// Index of the last entry in this delta.
    pub end_index: u64,
    /// Size of the compressed delta in bytes.
    pub size_bytes: u64,
    /// Creation time (Unix seconds).
    pub created_at: u64,
    /// File holding the compressed delta, when it was persisted.
    pub file_path: Option<String>,
}

impl DeltaInfo {
    pub fn new(start: u64, end: u64, size: u64, timestamp: u64) -> (d: Self)
        ensures
            d.start_index == start,
            d.end_index == end,
            d.size_bytes == size,
            d.created_at == timestamp,
            d.file_path is None,
    {
        DeltaInfo { start_index: start, end_index: end, size_bytes: size, created_at: timestamp, file_path: None }
    }

    /// The same delta with its file recorded.
    pub fn with_file_path(self, path: String) -> (d: Self)
        ensures
            d == (DeltaInfo { file_path: Some(path), ..self }),
    {
        let mut d = self;
        d.file_path = Some(path);
        d
    }
}

/// Chain length at which the state alone asks for a merge.
pub const MAX_DELTA_CHAIN: usize = 5;
/// Cumulative delta size (300 MiB) at which the state alone asks for a merge.
pub const MAX_DELTA_BYTES: u64 = 314572800;

/// The snapshot chain: last full checkpoint and the deltas taken since.
#[derive(Debug, Clone)]
pub struct SnapshotMetaState {
    pub last_checkpoint: Option<CheckpointMetadata>,
    pub delta_chain: Vec<DeltaInfo>,
    pub total_delta_bytes: u64,
}

impl SnapshotMetaState {
    /// No checkpoint, empty chain.
    pub fn new() -> (s: Self)
        ensures
            s.last_checkpoint is None,
            s.delta_chain@.len() == 0,
            s.total_delta_bytes == 0,
    {
        SnapshotMetaState { last_checkpoint: None, delta_chain: Vec::new(), total_delta_bytes: 0 }
    }

    /// Whether the chain is long or large enough to be merged.
    pub open spec fn needs_merge(&self) -> bool {
        self.delta_chain@.len() >= MAX_DELTA_CHAIN || self.total_delta_bytes >= MAX_DELTA_BYTES
    }

    /// Merge is needed once the chain holds 5 deltas or 300 MiB.
    pub fn should_merge(&self) -> (b: bool)
        ensures
            b == self.needs_merge(),
    {
        self.delta_chain.len() >= MAX_DELTA_CHAIN || self.total_delta_bytes >= MAX_DELTA_BYTES
    }
}

impl Default for SnapshotMetaState {
    /// Same as [`SnapshotMetaState::new`].
    fn default() -> (s: Self)
        ensures
            s.last_checkpoint is None,
            s.delta_chain@.len() == 0,
            s.total_delta_bytes == 0,
    {
        Self::new()
    }
}

/// Progress record of a background merge, persisted so that a restart can
/// resume or abandon it.
#[derive(Debug, Clone, PartialEq, Eq)]
pub struct MergeProgressState {
    /// A merge attempt was started and has not finished.
    pub in_progress: bool,
    /// Trigger label of the merge (see `MergeTrigger::as_str`).
    pub trigger_reason: Option<String>,
    /// Number of the current (or last) attempt, starting at 1.
    pub attempt: u8,
    /// Attempts allowed for this merge.
    pub max_retries: u8,
    /// Start time of the merge (Unix seconds).
    pub started_at: u64,
    /// Error of the last failed attempt, when it gave up.
    pub last_error: Option<String>,
}

impl MergeProgressState {
    /// No merge recorded.
    pub fn new() -> (s: Self)
        ensures
            !s.in_progress,
            s.trigger_reason is None,
            s.attempt == 0,
            s.max_retries == 0,
            s.started_at == 0,
            s.last_error is None,
    {
        MergeProgressState {
            in_progress: false,
            trigger_reason: None,
            attempt: 0,
            max_retries: 0,
            started_at: 0,
            last_error: None,
        }
    }

    /// Attempt `attempt` of a merge is running.
    pub fn started(trigger: String, attempt: u8, max_retries: u8, started_at: u64) -> (s: Self)
        ensures
            s.in_progress,
            s.trigger_reason == Some(trigger),
            s.attempt == attempt,
            s.max_retries == max_retries,
            s.started_at == started_at,
            s.last_error is None,
    {
        MergeProgressState {
            in_progress: true,
            trigger_reason: Some(trigger),
            attempt,
            max_retries,
            started_at,
            last_error: None,
        }
    }

    /// The merge finished at attempt `attempt`.
    pub fn succeeded(trigger: String, attempt: u8, max_retries: u8, started_at: u64) -> (s: Self)
        ensures
            !s.in_progress,
            s.trigger_reason == Some(trigger),
            s.attempt == attempt,
            s.max_retries == max_retries,
            s.started_at == started_at,
            s.last_error is None,
    {
        MergeProgressState {
            in_progress: false,
            trigger_reason: Some(trigger),
            attempt,
            max_retries,
            started_at,
            last_error: None,
        }
    }

    /// The merge gave up at attempt `attempt` with `error`.
    pub fn failed(trigger: String, attempt: u8, max_retries: u8, started_at: u64, error: String) -> (s: Self)
        ensures
            !s.in_progress,
            s.trigger_reason == Some(trigger),
            s.attempt == attempt,
            s.max_retries == max_retries,
            s.started_at == started_at,
            s.last_error == Some(error),
    {
        MergeProgressState {
            in_progress: false,
            trigger_reason: Some(trigger),
            attempt,
            max_retries,
            started_at,
            last_error: Some(error),
        }
    }
}

/// The node's metadata as last saved: voting state, applied position,
/// snapshot chain and merge progress. The process persists each record to
/// the storage engine whenever it changes.
#[derive(Debug, Clone)]
pub struct MetadataManager {
    pub voting: VotingState,
    pub applied: AppliedState,
    pub snapshot: SnapshotMetaState,
    pub merge_progress: MergeProgressState,
}

impl MetadataManager {
    /// No vote cast in term 0, nothing applied, no checkpoint and an empty
    /// delta chain, and no merge recorded.
    pub open spec fn is_fresh(&self) -> bool {
        &&& self.voting.current_term == 0 && self.voting.voted_for is None
        &&& self.applied.last_applied_index == 0 && self.applied.last_applied_term == 0
        &&& self.snapshot.last_checkpoint is None && self.snapshot.delta_chain@.len() == 0
        &&& self.snapshot.total_delta_bytes == 0
        &&& !self.merge_progress.in_progress && self.merge_progress.trigger_reason is None
        &&& self.merge_progress.attempt == 0 && self.merge_progress.max_retries == 0
        &&& self.merge_progress.started_at == 0 && self.merge_progress.last_error is None
    }

    /// Fresh metadata: no vote, nothing applied, no snapshot, no merge.
    pub fn new() -> (m: Self)
        ensures
            m.is_fresh(),
    {
        MetadataManager {
            voting: VotingState::new(),
            applied: AppliedState::new(),
            snapshot: SnapshotMetaState::new(),
            merge_progress: MergeProgressState::new(),
        }
    }

    /// Records a new voting state; the other records are kept.
    pub fn save_voting_state(&mut self, state: VotingState)
        ensures
            final(self).voting == state,
            final(self).applied == old(self).applied,
            final(self).snapshot == old(self).snapshot,
            final(self).merge_progress == old(self).merge_progress,
    {
        self.voting = state;
    }

    /// The current voting state.
    pub fn get_voting_state(&self) -> (s: VotingState)
        ensures
            s == self.voting,
    {
        VotingState { current_term: self.voting.current_term, voted_for: self.voting.voted_for }
    }

    /// Records a new applied position; the other records are kept.
    pub fn save_applied_state(&mut self, state: AppliedState)
        ensures
            final(self).applied == state,
            final(self).voting == old(self).voting,
            final(self).snapshot == old(self).snapshot,
            final(self).merge_progress == old(self).merge_progress,
    {
        self.applied = state;
    }

    /// The current applied position.
    pub fn get_applied_state(&self) -> (s: AppliedState)
        ensures
            s == self.applied,
    {
        AppliedState {
            last_applied_index: self.applied.last_applied_index,
            last_applied_term: self.applied.last_applied_term,
        }
    }

    /// Records a new snapshot chain; the other records are kept.
    pub fn save_snapshot_state(&mut self, state: SnapshotMetaState)
        ensures
            final(self).snapshot == state,
            final(self).voting == old(self).voting,
            final(self).applied == old(self).applied,
            final(self).merge_progress == old(self).merge_progress,
    {
        self.snapshot = state;
    }

    /// A copy of the current snapshot chain.
    pub fn get_snapshot_state(&self) -> (s: SnapshotMetaState)
        ensures
            s.last_checkpoint == self.snapshot.last_checkpoint,
            s.delta_chain@ == self.snapshot.delta_chain@,
            s.total_delta_bytes == self.snapshot.total_delta_bytes,
    {
        copy_snapshot_state(&self.snapshot)
    }
}

fn copy_opt_string(s: &Option<String>) -> (r: Option<String>)
    ensures
        r == *s,
{
    match s {
        Some(p) => Some(p.clone()),
        None => None,
    }
}

fn copy_checkpoint(c: &CheckpointMetadata) -> (r: CheckpointMetadata)
    ensures
        r == *c,
{
    CheckpointMetadata {
        checkpoint_index: c.checkpoint_index,
        checkpoint_term: c.checkpoint_term,
        sequence_number: c.sequence_number,
        created_at: c.created_at,
        checkpoint_path: copy_opt_string(&c.checkpoint_path),
    }
}

fn copy_delta(d: &DeltaInfo) -> (r: DeltaInfo)
    ensures
        r == *d,
{
    DeltaInfo {
        start_index: d.start_index,
        end_index: d.end_index,
        size_bytes: d.size_bytes,
        created_at: d.created_at,
        file_path: copy_opt_string(&d.file_path),
    }
}

fn copy_snapshot_state(s: &SnapshotMetaState) -> (r: SnapshotMetaState)
    ensures
        r.last_checkpoint == s.last_checkpoint,
        r.delta_chain@ == s.delta_chain@,
        r.total_delta_bytes == s.total_delta_bytes,
{
    let last_checkpoint = match &s.last_checkpoint {
        Some(c) => Some(copy_checkpoint(c)),
        None => None,
    };
    let mut chain: Vec<DeltaInfo> = Vec::new();
    let mut i: usize = 0;
    while i < s.delta_chain.len()
        invariant
            i <= s.delta_chain@.len(),
            chain@ == s.delta_chain@.subrange(0, i as int),
        decreases s.delta_chain@.len() - i,
    {
        chain.push(copy_delta(&s.delta_chain[i]));
        i = i + 1;
    }
    proof {
        assert(s.delta_chain@.subrange(0, s.delta_chain@.len() as int) =~= s.delta_chain@);
    }
    SnapshotMetaState { last_checkpoint, delta_chain: chain, total_delta_bytes: s.total_delta_bytes }
}

} // verus!
