//! The decisions of the checkpoint merge backend: which baseline checkpoint
//! a merge starts from, the position of the merged checkpoint, how each
//! delta entry is read, and the errors of a merge that cannot start. The
//! process copies the baseline, replays the entries into a temporary tree
//! and creates the new checkpoint.

use vstd::prelude::*;
use crate::error::RaftError;
use crate::merge::error_codes::{MERGE_ERR_BASELINE_MISSING, MERGE_ERR_BASELINE_PATH_MISSING, MERGE_ERR_BASELINE_PATH_REQUIRED};
use crate::state::SnapshotMetaState;
use crate::types::{decode_kv_request_spec, DeltaEntry, KVRequest, KvOp};

verus! {

/// A snapshot error `{code}: {detail}`.
pub open spec fn merge_error_text(code: Seq<char>, detail: Seq<char>) -> Seq<char> {
    code + ": "@ + detail
}

/// The snapshot error `{code}: {detail}` of a merge.
pub fn merge_snapshot_error(code: &str, detail: &str) -> (e: RaftError)
    ensures
        e matches RaftError::Snapshot(m) && m@ == merge_error_text(code@, detail@),
{
    proof { reveal_strlit(": "); }
    let mut m = code.to_owned();
    m.append(": ");
    m.append(detail);
    RaftError::Snapshot(m)
}

/// Merge backend that builds a real checkpoint from the baseline checkpoint
/// and the delta files of the chain.
#[derive(Debug, Clone)]
pub struct CheckpointMergeBackend {
    temp_base: String,
}

/// Where the baseline of a merge of `s` lies, or why there is none.
pub open spec fn baseline_of(s: SnapshotMetaState) -> Result<Seq<char>, Seq<char>> {
    match s.last_checkpoint {
        None => Err(merge_error_text("MERGE_BASELINE_MISSING"@, "missing baseline checkpoint metadata; merge aborted"@)),
        Some(cp) => match cp.checkpoint_path {
            None => Err(merge_error_text("MERGE_BASELINE_PATH_REQUIRED"@, "checkpoint_path is required in strict mode"@)),
            Some(p) => Ok(p@),
        },
    }
}

/// Position (index, term) of the checkpoint a merge of `s` creates: the end
/// of the last delta with the baseline's term, else the baseline's own
/// position, else the origin.
pub open spec fn merged_position(s: SnapshotMetaState) -> (u64, u64) {
    if s.delta_chain@.len() > 0 {
        (s.delta_chain@.last().end_index, match s.last_checkpoint { Some(cp) => cp.checkpoint_term, None => 0 })
    } else {
        match s.last_checkpoint {
            Some(cp) => (cp.checkpoint_index, cp.checkpoint_term),
            None => (0, 0),
        }
    }
}

impl CheckpointMergeBackend {
    pub closed spec fn temp_base(&self) -> Seq<char> {
        self.temp_base@
    }

    /// Temporary trees go under `target/tmp/merge`.
    pub fn new() -> (b: Self)
        ensures
            b.temp_base() == "target/tmp/merge"@,
    {
        CheckpointMergeBackend { temp_base: String::from_str("target/tmp/merge") }
    }

    /// The same backend with temporary trees under `temp_base`.
    pub fn with_temp_base(self, temp_base: String) -> (b: Self)
        ensures
            b.temp_base() == temp_base@,
    {
        CheckpointMergeBackend { temp_base }
    }

    /// Directory under which temporary trees are created.
    pub fn temp_base_dir(&self) -> (s: &str)
        ensures
            s@ == self.temp_base(),
    {
        self.temp_base.as_str()
    }

    /// The recorded directory of the baseline checkpoint; a merge never
    /// starts without one.
    pub fn resolve_baseline_checkpoint(&self, snapshot_state: &SnapshotMetaState) -> (r: Result<String, RaftError>)
        ensures
            match r {
                Ok(p) => baseline_of(*snapshot_state) == Ok::<Seq<char>, Seq<char>>(p@),
                Err(e) => e matches RaftError::Snapshot(m) && baseline_of(*snapshot_state) == Err::<Seq<char>, Seq<char>>(m@),
            },
    {
        match &snapshot_state.last_checkpoint {
            None => Err(merge_snapshot_error(MERGE_ERR_BASELINE_MISSING, "missing baseline checkpoint metadata; merge aborted")),
            Some(cp) => match &cp.checkpoint_path {
                None => Err(merge_snapshot_error(MERGE_ERR_BASELINE_PATH_REQUIRED, "checkpoint_path is required in strict mode")),
                Some(p) => Ok(p.clone()),
            },
        }
    }

    /// Error of a baseline directory that does not exist.
    pub fn baseline_path_missing(path: &str) -> (e: RaftError)
        ensures
            e matches RaftError::Snapshot(m)
                && m@ == merge_error_text("MERGE_BASELINE_PATH_MISSING"@, "baseline checkpoint path missing: "@ + path@),
    {
        proof { reveal_strlit("baseline checkpoint path missing: "); }
        let mut detail = String::from_str("baseline checkpoint path missing: ");
        detail.append(path);
        merge_snapshot_error(MERGE_ERR_BASELINE_PATH_MISSING, detail.as_str())
    }

    /// Position (index, term) of the merged checkpoint.
    pub fn checkpoint_position(snapshot_state: &SnapshotMetaState) -> (r: (u64, u64))
        ensures
            r == merged_position(*snapshot_state),
    {
        let n = snapshot_state.delta_chain.len();
        if n > 0 {
            let term = match &snapshot_state.last_checkpoint {
                Some(cp) => cp.checkpoint_term,
                None => 0,
            };
            (snapshot_state.delta_chain[n - 1].end_index, term)
        } else {
            match &snapshot_state.last_checkpoint {
                Some(cp) => (cp.checkpoint_index, cp.checkpoint_term),
                None => (0, 0),
            }
        }
    }

    /// Size reported for the merged checkpoint: its size on disk, or the
    /// chain's cumulative size if that is larger.
    pub fn reported_size(size_on_disk: u64, snapshot_state: &SnapshotMetaState) -> (r: u64)
        ensures
            r == if size_on_disk >= snapshot_state.total_delta_bytes { size_on_disk } else { snapshot_state.total_delta_bytes },
    {
        if size_on_disk >= snapshot_state.total_delta_bytes { size_on_disk } else { snapshot_state.total_delta_bytes }
    }

    /// The request a delta entry replays; a serialization error when its
    /// payload is not a request.
    pub fn decode_entry(entry: &DeltaEntry) -> (r: Result<KVRequest, RaftError>)
        ensures
            match r {
                Ok(req) => decode_kv_request_spec(entry.payload@) == Some(req@),
                Err(e) => decode_kv_request_spec(entry.payload@) is None
                    && (e matches RaftError::Serialization(m) && m@ == "failed to decode entry: invalid request payload"@),
            },
    {
        match KVRequest::decode(entry.payload.as_slice()) {
            Some(req) => Ok(req),
            None => Err(RaftError::Serialization(String::from_str("failed to decode entry: invalid request payload"))),
        }
    }
}

impl Default for CheckpointMergeBackend {
    fn default() -> (b: Self)
        ensures
            b.temp_base() == "target/tmp/merge"@,
    {
        Self::new()
    }
}

} // verus!
