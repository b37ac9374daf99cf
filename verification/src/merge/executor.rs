//! Retry protocol of a background merge.
//!
//! A merge runs in attempts. Before each attempt the progress record is
//! persisted as started; the backend then folds the delta chain into a new
//! checkpoint. On success the merged snapshot state and a finished progress
//! record are persisted; on failure the attempt is retried until
//! `max_retries` attempts have been made, after which a failed progress
//! record is persisted and the error reported.

use vstd::prelude::*;
use crate::error::{error_text, RaftError};
use crate::merge::cleanup::{CleanupReport, MergeCleanup};
use crate::merge::error_codes::MERGE_ERR_UNKNOWN;
use crate::merge::policy::{merge_trigger, trigger_label, DeltaMergePolicy, MergeTrigger};
use crate::metrics::MergeMetrics;
use crate::state::{CheckpointMetadata, MergeProgressState, SnapshotMetaState};
use crate::text::{before_char, before_first, decimal, is_whitespace_spec, push_decimal, str_equal, trim, trim_spec};
use crate::merge::checkpoint_backend::merge_error_text;
use crate::wire::opt_str_view;

verus! {

/// What a merge backend produced.
#[derive(Debug, Clone, PartialEq, Eq)]
pub struct MergeExecution {
    /// Size of the new checkpoint in bytes.
    pub checkpoint_size_bytes: u64,
    /// Directory of the new checkpoint, when the backend created one.
    pub checkpoint_path: Option<String>,
}

/// Folds a snapshot chain into a new full checkpoint.
pub trait MergeBackend {
    fn execute_merge(&self, snapshot_state: &SnapshotMetaState) -> Result<MergeExecution, RaftError>;
}

/// Backend that creates no checkpoint: it reports the chain's cumulative
/// size and keeps the current checkpoint directory.
#[derive(Debug, Default)]
pub struct MetadataOnlyMergeBackend;

impl MergeBackend for MetadataOnlyMergeBackend {
    fn execute_merge(&self, snapshot_state: &SnapshotMetaState) -> (r: Result<MergeExecution, RaftError>)
        ensures
            r matches Ok(e) && e.checkpoint_size_bytes == snapshot_state.total_delta_bytes
                && e.checkpoint_path == (match snapshot_state.last_checkpoint {
                    Some(cp) => cp.checkpoint_path,
                    None => None,
                }),
    {
        let checkpoint_path = match &snapshot_state.last_checkpoint {
            Some(cp) => cp.checkpoint_path.clone(),
            None => None,
        };
        Ok(MergeExecution { checkpoint_size_bytes: snapshot_state.total_delta_bytes, checkpoint_path })
    }
}

/// Whether `c` is one of the stable `MERGE_*` codes.
pub open spec fn is_known_merge_code(c: Seq<char>) -> bool {
    ||| c == "MERGE_BASELINE_MISSING"@
    ||| c == "MERGE_BASELINE_PATH_REQUIRED"@
    ||| c == "MERGE_BASELINE_PATH_MISSING"@
    ||| c == "MERGE_INJECTED_FAILURE"@
    ||| c == "MERGE_UNKNOWN"@
}

/// Error code of a merge failure: the trimmed text before the first `:` of
/// a snapshot error's message when it is a known `MERGE_*` code, else
/// `MERGE_UNKNOWN` (also for an error of another kind).
pub open spec fn error_code_of(e: RaftError) -> Seq<char> {
    match e {
        RaftError::Snapshot(m) => {
            let code = trim_spec(before_char(m@, ':'));
            if is_known_merge_code(code) { code } else { "MERGE_UNKNOWN"@ }
        },
        _ => "MERGE_UNKNOWN"@,
    }
}

/// Computes [`is_known_merge_code`].
fn is_known_code(c: &str) -> (b: bool)
    ensures
        b == is_known_merge_code(c@),
{
    str_equal(c, "MERGE_BASELINE_MISSING") || str_equal(c, "MERGE_BASELINE_PATH_REQUIRED")
        || str_equal(c, "MERGE_BASELINE_PATH_MISSING") || str_equal(c, "MERGE_INJECTED_FAILURE")
        || str_equal(c, "MERGE_UNKNOWN")
}

/// Computes [`error_code_of`].
pub fn merge_error_code(err: &RaftError) -> (code: String)
    ensures
        code@ == error_code_of(*err),
{
    proof { reveal_strlit("MERGE_UNKNOWN"); }
    match err {
        RaftError::Snapshot(msg) => {
            let head = before_first(msg.as_str(), ':');
            let code = trim(head.as_str());
            if is_known_code(code.as_str()) {
                code
            } else {
                MERGE_ERR_UNKNOWN.to_owned()
            }
        },
        _ => MERGE_ERR_UNKNOWN.to_owned(),
    }
}

/// Outcome of a merge task.
#[derive(Debug, Clone, PartialEq, Eq)]
pub struct MergeTaskResult {
    pub merged: bool,
    pub trigger: Option<MergeTrigger>,
    /// Number of attempts made.
    pub retries: u8,
    pub checkpoint_size_bytes: u64,
    pub cleanup_report: CleanupReport,
}

/// Directory assumed for a merged checkpoint when the backend names none:
/// `target/checkpoints/checkpoint_{now}`.
pub open spec fn default_checkpoint_path(now: u64) -> Seq<char> {
    "target/checkpoints/checkpoint_"@ + decimal(now as nat)
}

/// `a + 1`, saturating at the type's maximum.
pub open spec fn sat_inc64(a: u64) -> u64 {
    if a < u64::MAX { (a + 1) as u64 } else { a }
}

/// Index of the checkpoint after merging `s` into `cp`: the end of the last
/// delta, or the checkpoint's own index when the chain is empty.
pub open spec fn merged_index(cp: CheckpointMetadata, s: SnapshotMetaState) -> u64 {
    if s.delta_chain@.len() > 0 { s.delta_chain@.last().end_index } else { cp.checkpoint_index }
}

/// `r` is `s` merged at `now` into the checkpoint at `path`.
pub open spec fn is_merged_state(r: SnapshotMetaState, s: SnapshotMetaState, now: u64, path: Option<Seq<char>>) -> bool {
    &&& r.delta_chain@.len() == 0
    &&& r.total_delta_bytes == 0
    &&& match s.last_checkpoint {
        None => r.last_checkpoint is None,
        Some(cp) => r.last_checkpoint matches Some(n) && {
            &&& n.checkpoint_index == merged_index(cp, s)
            &&& n.checkpoint_term == cp.checkpoint_term
            &&& n.sequence_number == sat_inc64(cp.sequence_number)
            &&& n.created_at == now
            &&& opt_str_view(n.checkpoint_path) == Some(match path {
                Some(p) => p,
                None => default_checkpoint_path(now),
            })
        },
    }
}

/// The snapshot state after a successful merge at `now`: the checkpoint
/// absorbs the chain, which is emptied.
pub fn build_merged_snapshot_state(state: SnapshotMetaState, now: u64, checkpoint_path: &Option<String>) -> (r: SnapshotMetaState)
    ensures
        is_merged_state(r, state, now, opt_str_view(*checkpoint_path)),
{
    let end_index = if state.delta_chain.len() > 0 {
        Some(state.delta_chain[state.delta_chain.len() - 1].end_index)
    } else {
        None
    };
    let last_checkpoint = match state.last_checkpoint {
        Some(cp) => {
            let path = match checkpoint_path {
                Some(p) => p.clone(),
                None => {
                    proof { reveal_strlit("target/checkpoints/checkpoint_"); }
                    let mut p = String::from_str("target/checkpoints/checkpoint_");
                    push_decimal(&mut p, now);
                    p
                },
            };
            let sequence_number = if cp.sequence_number < u64::MAX { cp.sequence_number + 1 } else { cp.sequence_number };
            let checkpoint_index = match end_index {
                Some(end) => end,
                None => cp.checkpoint_index,
            };
            Some(CheckpointMetadata {
                checkpoint_index,
                checkpoint_term: cp.checkpoint_term,
                sequence_number,
                created_at: now,
                checkpoint_path: Some(path),
            })
        },
        None => None,
    };
    SnapshotMetaState { last_checkpoint, delta_chain: Vec::new(), total_delta_bytes: 0 }
}

/// `a + 1`, saturating at the type's maximum.
pub open spec fn sat_inc8(a: u8) -> u8 {
    if a < u8::MAX { (a + 1) as u8 } else { a }
}

/// Message of a merge that gave up: `{code}: merge failed after {n} retries: {error}`.
pub open spec fn give_up_message(code: Seq<char>, retries: u8, error: Seq<char>) -> Seq<char> {
    code + ": merge failed after "@ + decimal(retries as nat) + " retries: "@ + error
}

/// What to do after a failed attempt.
#[derive(Debug)]
pub enum MergeFailure {
    /// Attempts remain: start the next one.
    Retry,
    /// No attempt remains: persist `progress`, count a failure with
    /// `error_code` and report `error`.
    GiveUp { progress: MergeProgressState, error_code: String, error: RaftError },
}

/// State of a running merge.
#[derive(Debug, Clone, PartialEq, Eq)]
pub struct MergeRun {
    pub trigger: MergeTrigger,
    pub max_retries: u8,
    /// Start time of the merge (Unix seconds).
    pub started_at: u64,
    /// Attempts started so far.
    pub retries: u8,
}

impl MergeRun {
    /// A merge for `trigger` that has made no attempt yet.
    pub fn new(trigger: MergeTrigger, max_retries: u8, started_at: u64) -> (r: Self)
        ensures
            r == (MergeRun { trigger, max_retries, started_at, retries: 0 }),
    {
        MergeRun { trigger, max_retries, started_at, retries: 0 }
    }

    /// Starts the next attempt and returns the progress record to persist
    /// before running it.
    pub fn begin_attempt(&mut self) -> (p: MergeProgressState)
        ensures
            *final(self) == (MergeRun { retries: sat_inc8(old(self).retries), ..*old(self) }),
            p.in_progress,
            p.trigger_reason matches Some(t) && t@ == trigger_label(old(self).trigger),
            p.attempt == final(self).retries,
            p.max_retries == old(self).max_retries,
            p.started_at == old(self).started_at,
            p.last_error is None,
    {
        self.retries = if self.retries < u8::MAX { self.retries + 1 } else { self.retries };
        MergeProgressState::started(self.trigger.as_str().to_owned(), self.retries, self.max_retries, self.started_at)
    }

    /// The records to persist after a successful attempt: the merged
    /// snapshot state and a finished progress record.
    pub fn succeed(&self, state: SnapshotMetaState, exec: &MergeExecution) -> (r: (SnapshotMetaState, MergeProgressState))
        ensures
            is_merged_state(r.0, state, self.started_at, opt_str_view(exec.checkpoint_path)),
            !r.1.in_progress,
            r.1.trigger_reason matches Some(t) && t@ == trigger_label(self.trigger),
            r.1.attempt == self.retries,
            r.1.max_retries == self.max_retries,
            r.1.started_at == self.started_at,
            r.1.last_error is None,
    {
        let merged = build_merged_snapshot_state(state, self.started_at, &exec.checkpoint_path);
        let progress = MergeProgressState::succeeded(self.trigger.as_str().to_owned(), self.retries, self.max_retries, self.started_at);
        (merged, progress)
    }

    /// The result reported after a successful attempt.
    pub fn result(&self, exec: &MergeExecution, cleanup_report: CleanupReport) -> (r: MergeTaskResult)
        ensures
            r == (MergeTaskResult {
                merged: true,
                trigger: Some(self.trigger),
                retries: self.retries,
                checkpoint_size_bytes: exec.checkpoint_size_bytes,
                cleanup_report,
            }),
    {
        MergeTaskResult {
            merged: true,
            trigger: Some(self.trigger),
            retries: self.retries,
            checkpoint_size_bytes: exec.checkpoint_size_bytes,
            cleanup_report,
        }
    }

    /// Decision after a failed attempt: retry while fewer than
    /// `max_retries` attempts were made, else give up with a failed progress
    /// record carrying the error's text and a snapshot error
    /// `{code}: merge failed after {n} retries: {error}`.
    pub fn fail(&self, err: RaftError) -> (r: MergeFailure)
        ensures
            (self.retries < self.max_retries) <==> r is Retry,
            r matches MergeFailure::GiveUp { progress, error_code, error } ==> {
                &&& !progress.in_progress
                &&& progress.trigger_reason matches Some(t) && t@ == trigger_label(self.trigger)
                &&& progress.attempt == self.retries
                &&& progress.max_retries == self.max_retries
                &&& progress.started_at == self.started_at
                &&& error_code@ == error_code_of(err)
                &&& progress.last_error matches Some(text) && error matches RaftError::Snapshot(m)
                    && m@ == give_up_message(error_code@, self.retries, text@)
                    && (!(err is Io) ==> text@ == error_text(err))
            },
    {
        if self.retries < self.max_retries {
            return MergeFailure::Retry;
        }
        let error_code = merge_error_code(&err);
        let text = err.to_string();
        proof {
            reveal_strlit(": merge failed after ");
            reveal_strlit(" retries: ");
        }
        let mut msg = error_code.clone();
        msg.append(": merge failed after ");
        push_decimal(&mut msg, self.retries as u64);
        msg.append(" retries: ");
        msg.append(text.as_str());
        let progress = MergeProgressState::failed(self.trigger.as_str().to_owned(), self.retries, self.max_retries, self.started_at, text);
        MergeFailure::GiveUp { progress, error_code, error: RaftError::Snapshot(msg) }
    }
}

/// Decides when to merge and how often to try.
#[derive(Debug, Clone)]
pub struct MergeExecutor {
    cleanup: MergeCleanup,
    policy: DeltaMergePolicy,
    metrics: MergeMetrics,
    max_retries: u8,
}

impl MergeExecutor {
    pub closed spec fn policy(&self) -> DeltaMergePolicy {
        self.policy
    }

    pub closed spec fn max_retries(&self) -> u8 {
        self.max_retries
    }

    /// The cleanup selection the executor was made with.
    pub closed spec fn cleanup_spec(&self) -> MergeCleanup {
        self.cleanup
    }

    /// The metric recorder the executor was made with.
    pub closed spec fn metrics_spec(&self) -> MergeMetrics {
        self.metrics
    }

    /// An executor with the given policy that tries a merge up to 3 times.
    pub fn new(policy: DeltaMergePolicy, metrics: MergeMetrics, cleanup: MergeCleanup) -> (e: Self)
        ensures
            e.policy() == policy,
            e.max_retries() == 3,
            e.cleanup_spec() == cleanup,
            e.metrics_spec() == metrics,
    {
        MergeExecutor { cleanup, policy, metrics, max_retries: 3 }
    }

    /// Sets the number of attempts, at least 1.
    pub fn with_max_retries(self, max_retries: u8) -> (e: Self)
        ensures
            e.policy() == self.policy(),
            e.max_retries() == if max_retries >= 1 { max_retries } else { 1 },
            e.cleanup_spec() == self.cleanup_spec(),
            e.metrics_spec() == self.metrics_spec(),
    {
        let mut e = self;
        e.max_retries = if max_retries >= 1 { max_retries } else { 1 };
        e
    }

    /// The trigger of a merge to start now, if the policy asks for one.
    pub fn should_spawn(&self, snapshot_state: &SnapshotMetaState, now_secs: u64) -> (t: Option<MergeTrigger>)
        ensures
            t == merge_trigger(self.policy(), *snapshot_state, now_secs),
    {
        self.policy.evaluate(snapshot_state, now_secs)
    }

    /// Starts a merge run when the policy asks for one.
    pub fn spawn_if_needed(&self, snapshot_state: &SnapshotMetaState, now_secs: u64) -> (r: Option<MergeRun>)
        ensures
            match merge_trigger(self.policy(), *snapshot_state, now_secs) {
                Some(t) => r == Some(MergeRun { trigger: t, max_retries: self.max_retries(), started_at: now_secs, retries: 0 }),
                None => r is None,
            },
    {
        match self.should_spawn(snapshot_state, now_secs) {
            Some(t) => Some(MergeRun::new(t, self.max_retries, now_secs)),
            None => None,
        }
    }

    /// Cleanup selection used after a merge.
    pub fn cleanup(&self) -> (c: &MergeCleanup)
        ensures
            *c == self.cleanup_spec(),
    {
        &self.cleanup
    }

    /// Metric recorder of merges.
    pub fn metrics(&self) -> (m: &MergeMetrics)
        ensures
            *m == self.metrics_spec(),
    {
        &self.metrics
    }
}

/// The run after `k` more attempts were started.
pub open spec fn after_attempts(run: MergeRun, k: nat) -> MergeRun
    decreases k,
{
    if k == 0 {
        run
    } else {
        let r = after_attempts(run, (k - 1) as nat);
        MergeRun { retries: sat_inc8(r.retries), ..r }
    }
}

/// A merge whose every attempt fails gives up exactly after its
/// `max(1, max_retries)`-th attempt: started fresh, after its `k`-th
/// attempt (up to 255) the run counts `k` attempts, and the failure of that
/// attempt is retried exactly when `k` is below `max(1, max_retries)`.
pub proof fn law_attempts_until_give_up(trigger: MergeTrigger, max_retries: u8, started_at: u64, k: nat)
    requires
        1 <= k <= 255,
    ensures
        after_attempts(MergeRun { trigger, max_retries, started_at, retries: 0 }, k)
            == (MergeRun { trigger, max_retries, started_at, retries: k as u8 }),
        (after_attempts(MergeRun { trigger, max_retries, started_at, retries: 0 }, k).retries < max_retries)
            <==> k < (if max_retries >= 1 { max_retries as nat } else { 1 }),
    decreases k,
{
    if k > 1 {
        law_attempts_until_give_up(trigger, max_retries, started_at, (k - 1) as nat);
    } else {
        assert(after_attempts(MergeRun { trigger, max_retries, started_at, retries: 0 }, 0)
            == (MergeRun { trigger, max_retries, started_at, retries: 0 }));
    }
}

/// Merging empties the chain, so right after a merge the default-style
/// policy (positive thresholds) asks for no merge at the merge time.
pub proof fn law_merge_clears_trigger(p: DeltaMergePolicy, r: SnapshotMetaState, s: SnapshotMetaState, now: u64, path: Option<Seq<char>>)
    requires
        is_merged_state(r, s, now, path),
        p.max_chain_length > 0,
        p.max_delta_bytes > 0,
        p.checkpoint_interval_secs > 0,
    ensures
        merge_trigger(p, r, now) is None,
{
}

proof fn lemma_before_colon(code: Seq<char>, rest: Seq<char>)
    requires
        forall|i: int| 0 <= i < code.len() ==> code[i] != ':',
        rest.len() > 0,
        rest[0] == ':',
    ensures
        before_char(code + rest, ':') == code,
    decreases code.len(),
{
    if code.len() == 0 {
        assert(code + rest =~= rest);
    } else {
        lemma_before_colon(code.drop_first(), rest);
        assert((code + rest).drop_first() =~= code.drop_first() + rest);
        assert(seq![code[0]] + code.drop_first() =~= code);
    }
}

proof fn lemma_known_code_shape(code: Seq<char>)
    requires
        is_known_merge_code(code),
    ensures
        code.len() > 0,
        forall|i: int| 0 <= i < code.len() ==> code[i] != ':',
        !is_whitespace_spec(code[0]),
        !is_whitespace_spec(code.last()),
{
    reveal_strlit("MERGE_BASELINE_MISSING");
    reveal_strlit("MERGE_BASELINE_PATH_REQUIRED");
    reveal_strlit("MERGE_BASELINE_PATH_MISSING");
    reveal_strlit("MERGE_INJECTED_FAILURE");
    reveal_strlit("MERGE_UNKNOWN");
    assert forall|i: int| 0 <= i < code.len() implies code[i] != ':' by {
        assert(code[i] == 'M' || code[i] == 'E' || code[i] == 'R' || code[i] == 'G' || code[i] == '_'
            || code[i] == 'B' || code[i] == 'A' || code[i] == 'S' || code[i] == 'L' || code[i] == 'I'
            || code[i] == 'N' || code[i] == 'P' || code[i] == 'T' || code[i] == 'H' || code[i] == 'Q'
            || code[i] == 'U' || code[i] == 'D' || code[i] == 'J' || code[i] == 'C' || code[i] == 'F'
            || code[i] == 'K' || code[i] == 'W' || code[i] == 'O');
    }
}

/// The code of a merge error built as `{code}: {detail}` is `code`, for
/// every known `MERGE_*` code (each is non-empty, without `:` and without
/// surrounding whitespace).
pub proof fn law_error_code_roundtrip(e: RaftError, code: Seq<char>, detail: Seq<char>)
    requires
        e matches RaftError::Snapshot(m) && m@ == merge_error_text(code, detail),
        is_known_merge_code(code),
    ensures
        error_code_of(e) == code,
{
    lemma_known_code_shape(code);
    reveal_strlit(": ");
    let rest = ": "@ + detail;
    assert(merge_error_text(code, detail) =~= code + rest);
    lemma_before_colon(code, rest);
}

/// A merge moves the checkpoint to the end of the chain: the new checkpoint
/// index is the last delta's end index, or the old index when the chain is
/// empty (a merge triggered by time alone). The term is kept, the sequence
/// number goes up by one (saturating), the checkpoint is dated `now`, and
/// the chain and its bytes are emptied.
pub proof fn law_merged_checkpoint_index(r: SnapshotMetaState, s: SnapshotMetaState, now: u64, path: Option<Seq<char>>)
    requires
        is_merged_state(r, s, now, path),
        s.last_checkpoint is Some,
    ensures
        r.last_checkpoint is Some,
        r.delta_chain@.len() == 0,
        r.total_delta_bytes == 0,
        r.last_checkpoint->0.checkpoint_term == s.last_checkpoint->0.checkpoint_term,
        r.last_checkpoint->0.created_at == now,
        r.last_checkpoint->0.sequence_number == (if s.last_checkpoint->0.sequence_number < u64::MAX {
            s.last_checkpoint->0.sequence_number + 1
        } else {
            s.last_checkpoint->0.sequence_number as int
        }),
        r.last_checkpoint->0.checkpoint_index == (if s.delta_chain@.len() > 0 {
            s.delta_chain@.last().end_index
        } else {
            s.last_checkpoint->0.checkpoint_index
        }),
{
}

/// Merging never moves the checkpoint backwards when every delta ends at or
/// after it.
pub proof fn law_merge_never_moves_checkpoint_back(r: SnapshotMetaState, s: SnapshotMetaState, now: u64, path: Option<Seq<char>>)
    requires
        is_merged_state(r, s, now, path),
        s.last_checkpoint is Some,
        forall|i: int| 0 <= i < s.delta_chain@.len() ==> #[trigger] s.delta_chain@[i].end_index >= s.last_checkpoint->0.checkpoint_index,
    ensures
        r.last_checkpoint->0.checkpoint_index >= s.last_checkpoint->0.checkpoint_index,
{
    if s.delta_chain@.len() > 0 {
        assert(s.delta_chain@[s.delta_chain@.len() - 1].end_index >= s.last_checkpoint->0.checkpoint_index);
    }
}

} // verus!
