//! Settings of the tar.zst archive a full checkpoint is shipped in.

use vstd::prelude::*;

verus! {

/// Compressor of checkpoint archives.
#[derive(Debug, Clone, PartialEq, Eq)]
pub struct SnapshotCompressor {
    /// zstd compression level (1 to 22).
    pub zstd_level: i32,
}

impl SnapshotCompressor {
    /// Level 10.
    pub fn new() -> (c: Self)
        ensures
            c.zstd_level == 10,
    {
        SnapshotCompressor { zstd_level: 10 }
    }

    /// The same compressor at `level`.
    pub fn with_level(self, level: i32) -> (c: Self)
        ensures
            c.zstd_level == level,
    {
        SnapshotCompressor { zstd_level: level }
    }
}

impl Default for SnapshotCompressor {
    fn default() -> (c: Self)
        ensures
            c.zstd_level == 10,
    {
        Self::new()
    }
}

} // verus!
