//! Integrity check of a full snapshot archive before it is restored.

use vstd::prelude::*;
use crate::error::RaftError;
use crate::snapshot::metadata::CheckpointMetadata;

verus! {

/// One bit step of the reflected CRC-32 register (polynomial 0xEDB88320).
pub open spec fn crc32_bit(c: u32) -> u32 {
    if c & 1 == 1 { (c >> 1u32) ^ 0xEDB88320u32 } else { c >> 1u32 }
}

/// The register after taking in byte `b`: the byte is xored in, then eight
/// bit steps.
pub open spec fn crc32_byte(c: u32, b: u8) -> u32 {
    let x = c ^ (b as u32);
    crc32_bit(crc32_bit(crc32_bit(crc32_bit(crc32_bit(crc32_bit(crc32_bit(crc32_bit(x))))))))
}

/// The register after taking in `data`, starting from all ones.
pub open spec fn crc32_register(data: Seq<u8>) -> u32
    decreases data.len(),
{
    if data.len() == 0 {
        0xFFFFFFFFu32
    } else {
        crc32_byte(crc32_register(data.drop_last()), data.last())
    }
}

/// CRC-32/ISO-HDLC checksum of `data` (the common "crc32"): the final
/// register with all bits inverted.
pub open spec fn crc32_iso_hdlc_of(data: Seq<u8>) -> u32 {
    crc32_register(data) ^ 0xFFFFFFFFu32
}

/// `crc_fast::crc32_iso_hdlc`: the CRC-32/ISO-HDLC checksum of `data`
/// (reflected, polynomial 0x04C11DB7, initial and final xor all ones).
#[verifier::external_body]
fn crc32_iso_hdlc(data: &[u8]) -> (c: u32)
    ensures
        c == crc32_iso_hdlc_of(data@),
{
    crc_fast::crc32_iso_hdlc(data)
}

/// Restores full snapshots.
#[derive(Debug, Clone, Copy)]
pub struct SnapshotRestorer;

impl SnapshotRestorer {
    /// Whether `data` has CRC-32 `expected_crc32`.
    pub fn verify_crc32(data: &[u8], expected_crc32: u32) -> (b: bool)
        ensures
            b == (crc32_iso_hdlc_of(data@) == expected_crc32),
    {
        crc32_iso_hdlc(data) == expected_crc32
    }

    /// Checks an archive against the expected metadata: a recorded CRC-32
    /// (non-zero) must match, else a snapshot error.
    pub fn check_integrity(data: &[u8], expected_meta: &CheckpointMetadata) -> (r: Result<(), RaftError>)
        ensures
            match r {
                Ok(_) => expected_meta.crc32 == 0 || crc32_iso_hdlc_of(data@) == expected_meta.crc32,
                Err(e) => expected_meta.crc32 != 0 && crc32_iso_hdlc_of(data@) != expected_meta.crc32
                    && (e matches RaftError::Snapshot(m) && m@ == "CRC32 mismatch while restoring snapshot"@),
            },
    {
        if expected_meta.crc32 != 0 && !Self::verify_crc32(data, expected_meta.crc32) {
            return Err(RaftError::Snapshot(String::from_str("CRC32 mismatch while restoring snapshot")));
        }
        Ok(())
    }

    /// Metadata of a restored checkpoint: the expected one, relocated to
    /// `target_dir`.
    pub fn restored_metadata(expected_meta: &CheckpointMetadata, target_dir: String) -> (m: CheckpointMetadata)
        ensures
            m == (CheckpointMetadata { checkpoint_dir: target_dir, ..*expected_meta }),
    {
        CheckpointMetadata {
            applied_index: expected_meta.applied_index,
            term: expected_meta.term,
            sequence_number: expected_meta.sequence_number,
            timestamp: expected_meta.timestamp,
            crc32: expected_meta.crc32,
            checkpoint_dir: target_dir,
            compressed_size: expected_meta.compressed_size,
        }
    }
}

} // verus!
