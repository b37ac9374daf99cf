//! Three-dimensional merge policy: chain length, cumulative delta bytes and
//! the age of the last full checkpoint, checked in that priority order.

use vstd::prelude::*;
use crate::state::{SnapshotMetaState, MAX_DELTA_BYTES, MAX_DELTA_CHAIN};

verus! {

/// Merge thresholds.
#[derive(Debug, Clone, PartialEq, Eq)]
pub struct DeltaMergePolicy {
    /// Chain length at which a merge is triggered.
    pub max_chain_length: usize,
    /// Cumulative delta bytes at which a merge is triggered.
    pub max_delta_bytes: u64,
    /// Age of the last full checkpoint at which a merge is triggered.
    pub checkpoint_interval_secs: u64,
}

/// Why a merge is triggered, in decreasing priority.
#[derive(Debug, Clone, Copy, PartialEq, Eq, Structural)]
pub enum MergeTrigger {
    ChainTooLong,
    SizeTooLarge,
    TimeWindowExpired,
}

/// Checkpoint age at `now`, clamped at zero for checkpoints from the future.
pub open spec fn checkpoint_age(now: u64, created_at: u64) -> int {
    if now >= created_at { now - created_at } else { 0 }
}

/// The trigger the policy reports for a snapshot state at time `now`.
pub open spec fn merge_trigger(p: DeltaMergePolicy, s: SnapshotMetaState, now: u64) -> Option<MergeTrigger> {
    if s.delta_chain@.len() >= p.max_chain_length {
        Some(MergeTrigger::ChainTooLong)
    } else if s.total_delta_bytes >= p.max_delta_bytes {
        Some(MergeTrigger::SizeTooLarge)
    } else {
        match s.last_checkpoint {
            Some(cp) =>
                if checkpoint_age(now, cp.created_at) >= p.checkpoint_interval_secs {
                    Some(MergeTrigger::TimeWindowExpired)
                } else {
                    None
                },
            None => None,
        }
    }
}

/// Default thresholds: 5 deltas, 300 MiB, 24 hours.
pub open spec fn default_policy() -> DeltaMergePolicy {
    DeltaMergePolicy {
        max_chain_length: 5,
        max_delta_bytes: 314572800,
        checkpoint_interval_secs: 86400,
    }
}

impl DeltaMergePolicy {
    /// Default thresholds: 5 deltas, 300 MiB, 24 hours.
    pub fn new() -> (p: Self)
        ensures
            p == default_policy(),
    {
        DeltaMergePolicy {
            max_chain_length: 5,
            max_delta_bytes: 300 * 1024 * 1024,
            checkpoint_interval_secs: 24 * 60 * 60,
        }
    }

    /// The highest-priority trigger that holds, if any.
    pub fn evaluate(&self, snapshot_state: &SnapshotMetaState, now_secs: u64) -> (t: Option<MergeTrigger>)
        ensures
            t == merge_trigger(*self, *snapshot_state, now_secs),
    {
        let decision = MergeDecision::from_state(self, snapshot_state, now_secs);
        decision.trigger
    }

    /// Whether some trigger holds.
    pub fn should_merge(&self, snapshot_state: &SnapshotMetaState, now_secs: u64) -> (b: bool)
        ensures
            b == merge_trigger(*self, *snapshot_state, now_secs) is Some,
    {
        self.evaluate(snapshot_state, now_secs).is_some()
    }
}

impl Default for DeltaMergePolicy {
    /// Default thresholds: 5 deltas, 300 MiB, 24 hours.
    fn default() -> (p: Self)
        ensures
            p == default_policy(),
    {
        Self::new()
    }
}

impl MergeTrigger {
    /// Stable label used in logs and metrics: `chain_length`, `delta_bytes`
    /// or `checkpoint_interval`.
    pub fn as_str(self) -> (s: &'static str)
        ensures
            s@ == trigger_label(self),
    {
        match self {
            MergeTrigger::ChainTooLong => "chain_length",
            MergeTrigger::SizeTooLarge => "delta_bytes",
            MergeTrigger::TimeWindowExpired => "checkpoint_interval",
        }
    }
}

/// Stable label of a trigger.
pub open spec fn trigger_label(t: MergeTrigger) -> Seq<char> {
    match t {
        MergeTrigger::ChainTooLong => "chain_length"@,
        MergeTrigger::SizeTooLarge => "delta_bytes"@,
        MergeTrigger::TimeWindowExpired => "checkpoint_interval"@,
    }
}

/// A merge decision together with the figures it was taken on.
#[derive(Debug, Clone, PartialEq, Eq)]
pub struct MergeDecision {
    pub trigger: Option<MergeTrigger>,
    pub chain_length: usize,
    pub cumulative_bytes: u64,
}

impl MergeDecision {
    pub fn from_state(policy: &DeltaMergePolicy, snapshot_state: &SnapshotMetaState, now_secs: u64) -> (d: Self)
        ensures
            d.trigger == merge_trigger(*policy, *snapshot_state, now_secs),
            d.chain_length == snapshot_state.delta_chain@.len(),
            d.cumulative_bytes == snapshot_state.total_delta_bytes,
    {
        let chain_length = snapshot_state.delta_chain.len();
        let cumulative_bytes = snapshot_state.total_delta_bytes;
        let trigger = if chain_length >= policy.max_chain_length {
            Some(MergeTrigger::ChainTooLong)
        } else if cumulative_bytes >= policy.max_delta_bytes {
            Some(MergeTrigger::SizeTooLarge)
        } else {
            match &snapshot_state.last_checkpoint {
                Some(cp) => {
                    let age = now_secs.saturating_sub(cp.created_at);
                    if age >= policy.checkpoint_interval_secs {
                        Some(MergeTrigger::TimeWindowExpired)
                    } else {
                        None
                    }
                },
                None => None,
            }
        };
        MergeDecision { trigger, chain_length, cumulative_bytes }
    }
}

/// A chain at or over the length limit is always reported as too long,
/// whatever its size and age.
pub proof fn lemma_chain_length_has_priority(p: DeltaMergePolicy, s: SnapshotMetaState, now: u64)
    requires
        s.delta_chain@.len() >= p.max_chain_length,
    ensures
        merge_trigger(p, s, now) == Some(MergeTrigger::ChainTooLong),
{
}

/// Below the length limit, a chain at or over the byte limit is reported as
/// too large, whatever its age.
pub proof fn lemma_size_before_time(p: DeltaMergePolicy, s: SnapshotMetaState, now: u64)
    requires
        s.delta_chain@.len() < p.max_chain_length,
        s.total_delta_bytes >= p.max_delta_bytes,
    ensures
        merge_trigger(p, s, now) == Some(MergeTrigger::SizeTooLarge),
{
}

/// Once a state triggers a merge, it still triggers one at any later time
/// (the checkpoint only grows older).
pub proof fn lemma_trigger_persists_over_time(p: DeltaMergePolicy, s: SnapshotMetaState, now: u64, later: u64)
    requires
        now <= later,
        merge_trigger(p, s, now) is Some,
    ensures
        merge_trigger(p, s, later) is Some,
{
}

/// Without a full checkpoint, time never triggers a merge: only the chain
/// length or size can.
pub proof fn lemma_no_time_trigger_without_checkpoint(p: DeltaMergePolicy, s: SnapshotMetaState, now: u64)
    requires
        s.last_checkpoint is None,
    ensures
        merge_trigger(p, s, now) != Some(MergeTrigger::TimeWindowExpired),
{
}

/// A state that asks for a merge by itself (5 deltas or 300 MiB) triggers
/// the default policy at any time.
pub proof fn lemma_state_merge_agrees_with_default_policy(s: SnapshotMetaState, now: u64)
    requires
        s.needs_merge(),
    ensures
        merge_trigger(default_policy(), s, now) is Some,
{
    assert(MAX_DELTA_CHAIN == 5 && MAX_DELTA_BYTES == 314572800);
}

/// Below the length and byte limits, a state with a full checkpoint
/// triggers a merge exactly when the checkpoint is at least the interval
/// old at `now` (an age of zero for a checkpoint from the future), and then
/// the trigger is the time window.
pub proof fn law_time_trigger_by_checkpoint_age(p: DeltaMergePolicy, s: SnapshotMetaState, now: u64)
    requires
        s.delta_chain@.len() < p.max_chain_length,
        s.total_delta_bytes < p.max_delta_bytes,
        s.last_checkpoint is Some,
    ensures
        ({
            let created = s.last_checkpoint->0.created_at;
            let old_enough = (if now >= created { now - created } else { 0 }) >= p.checkpoint_interval_secs;
            &&& old_enough ==> merge_trigger(p, s, now) == Some(MergeTrigger::TimeWindowExpired)
            &&& !old_enough ==> merge_trigger(p, s, now) is None
        }),
{
}

/// The decision depends on the chain only through its length: two states
/// with the same checkpoint, chain length and cumulative bytes get the same
/// trigger, whatever their deltas' ranges, sizes or times.
pub proof fn law_trigger_ignores_delta_details(p: DeltaMergePolicy, s: SnapshotMetaState, t: SnapshotMetaState, now: u64)
    requires
        s.last_checkpoint == t.last_checkpoint,
        s.delta_chain@.len() == t.delta_chain@.len(),
        s.total_delta_bytes == t.total_delta_bytes,
    ensures
        merge_trigger(p, s, now) == merge_trigger(p, t, now),
{
}

} // verus!
