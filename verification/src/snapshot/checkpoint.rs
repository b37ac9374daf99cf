//! Where checkpoints are created.

use vstd::prelude::*;
use crate::snapshot::metadata::{checkpoint_dir_name, CheckpointMetadata};
use crate::storage::engine::{join_path, path_join};

verus! {

/// Creates checkpoints of the storage engine under a base directory.
#[derive(Debug, Clone)]
pub struct CheckpointBuilder {
    pub checkpoint_base_dir: String,
}

impl CheckpointBuilder {
    pub fn new(checkpoint_base_dir: String) -> (b: Self)
        ensures
            b.checkpoint_base_dir == checkpoint_base_dir,
    {
        CheckpointBuilder { checkpoint_base_dir }
    }

    /// Directory of the checkpoint described by `meta`: its base directory
    /// joined with `checkpoint_{timestamp}`.
    pub fn checkpoint_path(meta: &CheckpointMetadata) -> (p: String)
        ensures
            p@ == path_join(meta.checkpoint_dir@, checkpoint_dir_name(meta.timestamp)),
    {
        let name = meta.dir_name();
        join_path(meta.checkpoint_dir.as_str(), name.as_str())
    }
}

} // verus!
