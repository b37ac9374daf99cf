//! Metadata of a full checkpoint snapshot.

use vstd::prelude::*;
use crate::clock::now_secs;
use crate::error::RaftError;
use crate::text::{decimal, push_decimal};
use crate::wire::{
    append_bytes, encode_str, encode_u32, encode_u64, postcard_str, postcard_take_str,
    postcard_take_u32, postcard_take_u64, postcard_u32, postcard_u64, take_str, take_u32,
    take_u64,
};

verus! {

/// Metadata of a checkpoint created from the current state.
#[derive(Debug, Clone)]
pub struct CheckpointMetadata {
    /// Applied index when the checkpoint was created.
    pub applied_index: u64,
    /// Term when the checkpoint was created.
    pub term: u64,
    /// Storage-engine sequence number of the checkpoint.
    pub sequence_number: u64,
    /// Creation time (Unix seconds).
    pub timestamp: u64,
    /// CRC32 of the compressed snapshot (0 when unknown).
    pub crc32: u32,
    /// Directory that holds the checkpoint directory.
    pub checkpoint_dir: String,
    /// Size of the compressed snapshot in bytes.
    pub compressed_size: u64,
}

/// Mathematical form of a [`CheckpointMetadata`].
pub ghost struct CheckpointMetaView {
    pub applied_index: u64,
    pub term: u64,
    pub sequence_number: u64,
    pub timestamp: u64,
    pub crc32: u32,
    pub checkpoint_dir: Seq<char>,
    pub compressed_size: u64,
}

impl View for CheckpointMetadata {
    type V = CheckpointMetaView;

    open spec fn view(&self) -> CheckpointMetaView {
        CheckpointMetaView {
            applied_index: self.applied_index,
            term: self.term,
            sequence_number: self.sequence_number,
            timestamp: self.timestamp,
            crc32: self.crc32,
            checkpoint_dir: self.checkpoint_dir@,
            compressed_size: self.compressed_size,
        }
    }
}

/// Postcard encoding of checkpoint metadata (fields in declaration order).
pub open spec fn checkpoint_meta_bytes(m: CheckpointMetaView) -> Seq<u8> {
    postcard_u64(m.applied_index) + postcard_u64(m.term) + postcard_u64(m.sequence_number)
        + postcard_u64(m.timestamp) + postcard_u32(m.crc32) + postcard_str(m.checkpoint_dir)
        + postcard_u64(m.compressed_size)
}

/// Postcard decoding of checkpoint metadata from the front of `b`.
pub open spec fn take_checkpoint_meta(b: Seq<u8>) -> Option<(CheckpointMetaView, Seq<u8>)> {
    match postcard_take_u64(b) {
        Some((applied_index, r1)) => match postcard_take_u64(r1) {
            Some((term, r2)) => match postcard_take_u64(r2) {
                Some((sequence_number, r3)) => match postcard_take_u64(r3) {
                    Some((timestamp, r4)) => match postcard_take_u32(r4) {
                        Some((crc32, r5)) => match postcard_take_str(r5) {
                            Some((checkpoint_dir, r6)) => match postcard_take_u64(r6) {
                                Some((compressed_size, r7)) => Some((
                                    CheckpointMetaView {
                                        applied_index,
                                        term,
                                        sequence_number,
                                        timestamp,
                                        crc32,
                                        checkpoint_dir,
                                        compressed_size,
                                    },
                                    r7,
                                )),
                                None => None,
                            },
                            None => None,
                        },
                        None => None,
                    },
                    None => None,
                },
                None => None,
            },
            None => None,
        },
        None => None,
    }
}

/// Name of the checkpoint directory: `checkpoint_{timestamp}`.
pub open spec fn checkpoint_dir_name(timestamp: u64) -> Seq<char> {
    "checkpoint_"@ + decimal(timestamp as nat)
}

impl CheckpointMetadata {
    /// Metadata stamped with the current time (see [`CheckpointMetadata::new_at`]),
    /// with no CRC and no compressed size yet.
    pub fn new(applied_index: u64, term: u64, sequence_number: u64, checkpoint_dir: String) -> (m: Self)
        ensures
            m.applied_index == applied_index,
            m.term == term,
            m.sequence_number == sequence_number,
            m.crc32 == 0,
            m.checkpoint_dir == checkpoint_dir,
            m.compressed_size == 0,
    {
        Self::new_at(applied_index, term, sequence_number, checkpoint_dir, now_secs())
    }

    /// Metadata stamped with `timestamp` (Unix seconds), with no CRC and no
    /// compressed size yet.
    pub fn new_at(applied_index: u64, term: u64, sequence_number: u64, checkpoint_dir: String, timestamp: u64) -> (m: Self)
        ensures
            m == (CheckpointMetadata {
                applied_index,
                term,
                sequence_number,
                timestamp,
                crc32: 0,
                checkpoint_dir,
                compressed_size: 0,
            }),
    {
        Self { applied_index, term, sequence_number, timestamp, crc32: 0, checkpoint_dir, compressed_size: 0 }
    }

    /// The same metadata with the CRC32 set.
    pub fn with_crc32(self, crc32: u32) -> (m: Self)
        ensures
            m == (CheckpointMetadata { crc32, ..self }),
    {
        let mut m = self;
        m.crc32 = crc32;
        m
    }

    /// The same metadata with the compressed size set.
    pub fn with_compressed_size(self, size: u64) -> (m: Self)
        ensures
            m == (CheckpointMetadata { compressed_size: size, ..self }),
    {
        let mut m = self;
        m.compressed_size = size;
        m
    }

    /// Whether the checkpoint was taken at `expected_index`.
    pub fn verify_consistency(&self, expected_index: u64) -> (b: bool)
        ensures
            b == (self.applied_index == expected_index),
    {
        self.applied_index == expected_index
    }

    /// Name of the checkpoint directory: `checkpoint_{timestamp}`.
    pub fn dir_name(&self) -> (s: String)
        ensures
            s@ == checkpoint_dir_name(self.timestamp),
    {
        proof { reveal_strlit("checkpoint_"); }
        let mut s = String::from_str("checkpoint_");
        push_decimal(&mut s, self.timestamp);
        s
    }

    /// Postcard encoding of the metadata; decoding it back, followed by any
    /// bytes, gives the same metadata and leaves those bytes.
    pub fn serialize(&self) -> (r: Vec<u8>)
        ensures
            r@ == checkpoint_meta_bytes(self@),
            forall|rest: Seq<u8>| #[trigger] take_checkpoint_meta(r@ + rest) == Some((self@, rest)),
    {
        let mut out = encode_u64(self.applied_index);
        let ghost b0 = out@;
        let b1 = encode_u64(self.term);
        let b2 = encode_u64(self.sequence_number);
        let b3 = encode_u64(self.timestamp);
        let b4 = encode_u32(self.crc32);
        let b5 = encode_str(self.checkpoint_dir.as_str());
        let b6 = encode_u64(self.compressed_size);
        append_bytes(&mut out, &b1);
        append_bytes(&mut out, &b2);
        append_bytes(&mut out, &b3);
        append_bytes(&mut out, &b4);
        append_bytes(&mut out, &b5);
        append_bytes(&mut out, &b6);
        assert forall|rest: Seq<u8>| #[trigger] take_checkpoint_meta(out@ + rest) == Some((self@, rest)) by {
            let t6 = b6@ + rest;
            let t5 = b5@ + t6;
            let t4 = b4@ + t5;
            let t3 = b3@ + t4;
            let t2 = b2@ + t3;
            let t1 = b1@ + t2;
            assert(out@ + rest =~= b0 + t1);
            assert(postcard_take_u64(b0 + t1) == Some((self.applied_index, t1)));
            assert(postcard_take_u64(t1) == Some((self.term, t2)));
            assert(postcard_take_u64(t2) == Some((self.sequence_number, t3)));
            assert(postcard_take_u64(t3) == Some((self.timestamp, t4)));
            assert(postcard_take_u32(t4) == Some((self.crc32, t5)));
            assert(postcard_take_str(t5) == Some((self.checkpoint_dir@, t6)));
            assert(postcard_take_u64(t6) == Some((self.compressed_size, rest)));
        }
        out
    }

    /// Decodes metadata from its postcard encoding (trailing bytes ignored).
    pub fn deserialize(data: &[u8]) -> (r: Result<Self, RaftError>)
        ensures
            match r {
                Ok(m) => take_checkpoint_meta(data@) matches Some((v, _)) && v == m@,
                Err(e) => take_checkpoint_meta(data@) is None && e is Serialization,
            },
    {
        match Self::take(data) {
            Some((m, _rest)) => Ok(m),
            None => Err(RaftError::Serialization(String::from_str("invalid checkpoint metadata encoding"))),
        }
    }

    /// Decodes metadata from the front of `b`, returning the unread rest.
    pub fn take(b: &[u8]) -> (r: Option<(Self, &[u8])>)
        ensures
            match r {
                Some((m, rest)) => take_checkpoint_meta(b@) == Some((m@, rest@)),
                None => take_checkpoint_meta(b@) is None,
            },
    {
        let (applied_index, r1) = match take_u64(b) { Some(x) => x, None => return None };
        let (term, r2) = match take_u64(r1) { Some(x) => x, None => return None };
        let (sequence_number, r3) = match take_u64(r2) { Some(x) => x, None => return None };
        let (timestamp, r4) = match take_u64(r3) { Some(x) => x, None => return None };
        let (crc32, r5) = match take_u32(r4) { Some(x) => x, None => return None };
        let (checkpoint_dir, r6) = match take_str(r5) { Some(x) => x, None => return None };
        let (compressed_size, r7) = match take_u64(r6) { Some(x) => x, None => return None };
        Some((
            CheckpointMetadata {
                applied_index,
                term,
                sequence_number,
                timestamp,
                crc32,
                checkpoint_dir,
                compressed_size,
            },
            r7,
        ))
    }
}

} // verus!
