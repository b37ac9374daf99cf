//! Snapshots: full checkpoints and incremental deltas, and the envelope that
//! carries either of them.
//!
//! A snapshot payload is an envelope: the snapshot's [`DeltaMetadata`]
//! followed by the payload bytes (a tar.zst archive for a full snapshot, a
//! compressed entry list for a delta). The first envelope version carried
//! the delta entries inside the metadata; such payloads are still read.

pub mod builder;
pub mod checkpoint;
pub mod compression;
pub mod consistency;
pub mod delta;
pub mod metadata;
pub mod restore;

use vstd::prelude::*;
use crate::error::RaftError;
use crate::snapshot::delta::{
    decode_delta_payload, delta_payload_error, delta_views, take_delta_entry_list, take_delta_list, DeltaSnapshotCodec,
};
use crate::snapshot::metadata::{take_checkpoint_meta, CheckpointMetaView, CheckpointMetadata};
use crate::types::{
    DeltaEntry, DeltaEntryView, DeltaMetadata, DeltaMetadataView, SnapshotFormat,
    SnapshotFormatView,
};
use crate::wire::{
    append_bytes, encode_bytes, encode_opt_str, encode_u16, encode_u32, encode_u64,
    opt_str_view, postcard_bytes, postcard_opt_str, postcard_take_bytes, postcard_take_opt_str,
    postcard_take_u16, postcard_take_u32, postcard_take_u64, postcard_u16, postcard_u32,
    postcard_u64, take_bytes, take_opt_str, take_u16, take_u32, take_u64,
};

verus! {

// ---------------------------------------------------------------------------
// Envelope grammar.

/// Postcard encoding of a snapshot format (variant index, then fields).
pub open spec fn format_bytes(f: SnapshotFormatView) -> Seq<u8> {
    match f {
        SnapshotFormatView::Full(cm) => postcard_u32(0) + crate::snapshot::metadata::checkpoint_meta_bytes(cm),
        SnapshotFormatView::Delta { base_index, entry_count } =>
            postcard_u32(1) + postcard_u64(base_index) + postcard_u64(entry_count),
    }
}

/// Postcard decoding of a snapshot format from the front of `b`.
pub open spec fn take_format(b: Seq<u8>) -> Option<(SnapshotFormatView, Seq<u8>)> {
    match postcard_take_u32(b) {
        Some((tag, r1)) =>
            if tag == 0 {
                match take_checkpoint_meta(r1) {
                    Some((cm, r2)) => Some((SnapshotFormatView::Full(cm), r2)),
                    None => None,
                }
            } else if tag == 1 {
                match postcard_take_u64(r1) {
                    Some((base_index, r2)) => match postcard_take_u64(r2) {
                        Some((entry_count, r3)) => Some((SnapshotFormatView::Delta { base_index, entry_count }, r3)),
                        None => None,
                    },
                    None => None,
                }
            } else {
                None
            },
        None => None,
    }
}

/// Postcard encoding of snapshot metadata.
pub open spec fn delta_metadata_bytes(m: DeltaMetadataView) -> Seq<u8> {
    format_bytes(m.format) + postcard_u64(m.size_bytes) + postcard_u64(m.created_at)
        + postcard_opt_str(m.file_path) + postcard_u16(m.version)
}

/// Postcard decoding of snapshot metadata from the front of `b`.
pub open spec fn take_delta_metadata(b: Seq<u8>) -> Option<(DeltaMetadataView, Seq<u8>)> {
    match take_format(b) {
        Some((format, r1)) => match postcard_take_u64(r1) {
            Some((size_bytes, r2)) => match postcard_take_u64(r2) {
                Some((created_at, r3)) => match postcard_take_opt_str(r3) {
                    Some((file_path, r4)) => match postcard_take_u16(r4) {
                        Some((version, r5)) => Some((DeltaMetadataView { format, size_bytes, created_at, file_path, version }, r5)),
                        None => None,
                    },
                    None => None,
                },
                None => None,
            },
            None => None,
        },
        None => None,
    }
}

/// Postcard encoding of an envelope: metadata, then the payload bytes.
pub open spec fn envelope_bytes(m: DeltaMetadataView, payload: Seq<u8>) -> Seq<u8> {
    delta_metadata_bytes(m) + postcard_bytes(payload)
}

/// Postcard decoding of an envelope from the front of `b`.
pub open spec fn take_envelope(b: Seq<u8>) -> Option<((DeltaMetadataView, Seq<u8>), Seq<u8>)> {
    match take_delta_metadata(b) {
        Some((m, r1)) => match postcard_take_bytes(r1) {
            Some((payload, r2)) => Some(((m, payload), r2)),
            None => None,
        },
        None => None,
    }
}

/// Format of a first-version envelope: a delta carried its entries.
pub ghost enum LegacyFormatView {
    Full(CheckpointMetaView),
    Delta { base_index: u64, entries: Seq<DeltaEntryView> },
}

/// Metadata of a first-version envelope.
pub ghost struct LegacyMetadataView {
    pub format: LegacyFormatView,
    pub size_bytes: u64,
    pub created_at: u64,
    pub file_path: Option<Seq<char>>,
    pub version: u16,
}

/// Postcard decoding of a first-version format from the front of `b`.
pub open spec fn take_legacy_format(b: Seq<u8>) -> Option<(LegacyFormatView, Seq<u8>)> {
    match postcard_take_u32(b) {
        Some((tag, r1)) =>
            if tag == 0 {
                match take_checkpoint_meta(r1) {
                    Some((cm, r2)) => Some((LegacyFormatView::Full(cm), r2)),
                    None => None,
                }
            } else if tag == 1 {
                match postcard_take_u64(r1) {
                    Some((base_index, r2)) => match take_delta_list(r2) {
                        Some((entries, r3)) => Some((LegacyFormatView::Delta { base_index, entries }, r3)),
                        None => None,
                    },
                    None => None,
                }
            } else {
                None
            },
        None => None,
    }
}

/// Postcard decoding of a first-version envelope (metadata, then payload).
pub open spec fn take_legacy_envelope(b: Seq<u8>) -> Option<LegacyMetadataView> {
    match take_legacy_format(b) {
        Some((format, r1)) => match postcard_take_u64(r1) {
            Some((size_bytes, r2)) => match postcard_take_u64(r2) {
                Some((created_at, r3)) => match postcard_take_opt_str(r3) {
                    Some((file_path, r4)) => match postcard_take_u16(r4) {
                        Some((version, r5)) => match postcard_take_bytes(r5) {
                            Some((_payload, _r6)) => Some(LegacyMetadataView { format, size_bytes, created_at, file_path, version }),
                            None => None,
                        },
                        None => None,
                    },
                    None => None,
                },
                None => None,
            },
            None => None,
        },
        None => None,
    }
}

/// A decoded snapshot payload.
#[derive(Debug, Clone)]
pub enum DecodedSnapshotPayload {
    Full(DeltaMetadata),
    Delta { metadata: DeltaMetadata, entries: Vec<DeltaEntry> },
}

/// Mathematical form of a [`DecodedSnapshotPayload`].
pub ghost enum DecodedView {
    Full(DeltaMetadataView),
    Delta { metadata: DeltaMetadataView, entries: Seq<DeltaEntryView> },
}

impl View for DecodedSnapshotPayload {
    type V = DecodedView;

    open spec fn view(&self) -> DecodedView {
        match self {
            DecodedSnapshotPayload::Full(m) => DecodedView::Full(m@),
            DecodedSnapshotPayload::Delta { metadata, entries } =>
                DecodedView::Delta { metadata: metadata@, entries: delta_views(entries@) },
        }
    }
}

/// Reading of a snapshot payload: a current envelope if the bytes are one
/// (a delta's entries are decompressed and decoded; failing that is an
/// error), else a first-version envelope converted to the current form,
/// else nothing.
pub open spec fn decode_snapshot_payload_spec(b: Seq<u8>) -> Result<Option<DecodedView>, ()> {
    match take_envelope(b) {
        Some(((m, payload), _)) => match m.format {
            SnapshotFormatView::Delta { .. } => match decode_delta_payload(payload) {
                Some(entries) => Ok(Some(DecodedView::Delta { metadata: m, entries })),
                None => Err(()),
            },
            SnapshotFormatView::Full(_) => Ok(Some(DecodedView::Full(m))),
        },
        None => match take_legacy_envelope(b) {
            None => Ok(None),
            Some(l) => match l.format {
                LegacyFormatView::Full(cm) => Ok(Some(DecodedView::Full(DeltaMetadataView {
                    format: SnapshotFormatView::Full(cm),
                    size_bytes: l.size_bytes,
                    created_at: l.created_at,
                    file_path: l.file_path,
                    version: 2,
                }))),
                LegacyFormatView::Delta { base_index, entries } => Ok(Some(DecodedView::Delta {
                    metadata: DeltaMetadataView {
                        format: SnapshotFormatView::Delta { base_index, entry_count: entries.len() as u64 },
                        size_bytes: l.size_bytes,
                        created_at: l.created_at,
                        file_path: l.file_path,
                        version: 2,
                    },
                    entries,
                })),
            },
        },
    }
}

/// Message of a payload whose reading fails: that of its delta payload
/// (see [`delta_payload_error`]).
pub open spec fn snapshot_payload_error(b: Seq<u8>) -> Seq<char> {
    match take_envelope(b) {
        Some(((_, payload), _)) => delta_payload_error(payload),
        None => Seq::empty(),
    }
}

// ---------------------------------------------------------------------------
// Envelope encoding and decoding.

/// Postcard encoding of a snapshot format.
pub fn encode_format(f: &SnapshotFormat) -> (r: Vec<u8>)
    ensures
        r@ == format_bytes(f@),
        forall|rest: Seq<u8>| #[trigger] take_format(r@ + rest) == Some((f@, rest)),
{
    match f {
        SnapshotFormat::Full { checkpoint_meta } => {
            let mut out = encode_u32(0);
            let ghost t = out@;
            let c = checkpoint_meta.serialize();
            append_bytes(&mut out, &c);
            assert forall|rest: Seq<u8>| #[trigger] take_format(out@ + rest) == Some((f@, rest)) by {
                assert(out@ + rest =~= t + (c@ + rest));
                assert(postcard_take_u32(t + (c@ + rest)) == Some((0u32, c@ + rest)));
                assert(take_checkpoint_meta(c@ + rest) == Some((checkpoint_meta@, rest)));
            }
            out
        },
        SnapshotFormat::Delta { base_index, entry_count } => {
            let mut out = encode_u32(1);
            let ghost t = out@;
            let a = encode_u64(*base_index);
            let b = encode_u64(*entry_count);
            append_bytes(&mut out, &a);
            append_bytes(&mut out, &b);
            assert forall|rest: Seq<u8>| #[trigger] take_format(out@ + rest) == Some((f@, rest)) by {
                assert(out@ + rest =~= t + (a@ + (b@ + rest)));
                assert(postcard_take_u32(t + (a@ + (b@ + rest))) == Some((1u32, a@ + (b@ + rest))));
                assert(postcard_take_u64(a@ + (b@ + rest)) == Some((*base_index, b@ + rest)));
                assert(postcard_take_u64(b@ + rest) == Some((*entry_count, rest)));
            }
            out
        },
    }
}

/// Postcard encoding of snapshot metadata.
pub fn encode_delta_metadata(m: &DeltaMetadata) -> (r: Vec<u8>)
    ensures
        r@ == delta_metadata_bytes(m@),
        forall|rest: Seq<u8>| #[trigger] take_delta_metadata(r@ + rest) == Some((m@, rest)),
{
    let mut out = encode_format(&m.format);
    let ghost b0 = out@;
    let b1 = encode_u64(m.size_bytes);
    let b2 = encode_u64(m.created_at);
    let b3 = encode_opt_str(&m.file_path);
    let b4 = encode_u16(m.version);
    append_bytes(&mut out, &b1);
    append_bytes(&mut out, &b2);
    append_bytes(&mut out, &b3);
    append_bytes(&mut out, &b4);
    assert forall|rest: Seq<u8>| #[trigger] take_delta_metadata(out@ + rest) == Some((m@, rest)) by {
        let t4 = b4@ + rest;
        let t3 = b3@ + t4;
        let t2 = b2@ + t3;
        let t1 = b1@ + t2;
        assert(out@ + rest =~= b0 + t1);
        assert(take_format(b0 + t1) == Some((m.format@, t1)));
        assert(postcard_take_u64(t1) == Some((m.size_bytes, t2)));
        assert(postcard_take_u64(t2) == Some((m.created_at, t3)));
        assert(postcard_take_opt_str(t3) == Some((opt_str_view(m.file_path), t4)));
        assert(postcard_take_u16(t4) == Some((m.version, rest)));
    }
    out
}

/// Postcard encoding of an envelope; decoding it back, followed by any
/// bytes, gives the same metadata and payload and leaves those bytes.
pub fn encode_envelope(metadata: &DeltaMetadata, payload: &Vec<u8>) -> (r: Vec<u8>)
    ensures
        r@ == envelope_bytes(metadata@, payload@),
        forall|rest: Seq<u8>| #[trigger] take_envelope(r@ + rest) == Some(((metadata@, payload@), rest)),
{
    let mut out = encode_delta_metadata(metadata);
    let ghost m = out@;
    let p = encode_bytes(payload);
    append_bytes(&mut out, &p);
    assert forall|rest: Seq<u8>| #[trigger] take_envelope(out@ + rest) == Some(((metadata@, payload@), rest)) by {
        assert(out@ + rest =~= m + (p@ + rest));
        assert(take_delta_metadata(m + (p@ + rest)) == Some((metadata@, p@ + rest)));
        assert(postcard_take_bytes(p@ + rest) == Some((payload@, rest)));
    }
    out
}

fn take_format_exec(b: &[u8]) -> (r: Option<(SnapshotFormat, &[u8])>)
    ensures
        match r {
            Some((f, rest)) => take_format(b@) == Some((f@, rest@)),
            None => take_format(b@) is None,
        },
{
    let (tag, r1) = match take_u32(b) { Some(x) => x, None => return None };
    if tag == 0 {
        match CheckpointMetadata::take(r1) {
            Some((cm, r2)) => Some((SnapshotFormat::Full { checkpoint_meta: cm }, r2)),
            None => None,
        }
    } else if tag == 1 {
        let (base_index, r2) = match take_u64(r1) { Some(x) => x, None => return None };
        let (entry_count, r3) = match take_u64(r2) { Some(x) => x, None => return None };
        Some((SnapshotFormat::Delta { base_index, entry_count }, r3))
    } else {
        None
    }
}

fn take_delta_metadata_exec(b: &[u8]) -> (r: Option<(DeltaMetadata, &[u8])>)
    ensures
        match r {
            Some((m, rest)) => take_delta_metadata(b@) == Some((m@, rest@)),
            None => take_delta_metadata(b@) is None,
        },
{
    let (format, r1) = match take_format_exec(b) { Some(x) => x, None => return None };
    let (size_bytes, r2) = match take_u64(r1) { Some(x) => x, None => return None };
    let (created_at, r3) = match take_u64(r2) { Some(x) => x, None => return None };
    let (file_path, r4) = match take_opt_str(r3) { Some(x) => x, None => return None };
    let (version, r5) = match take_u16(r4) { Some(x) => x, None => return None };
    Some((DeltaMetadata { format, size_bytes, created_at, file_path, version }, r5))
}

/// Decodes an envelope from the front of `b`: metadata and payload bytes.
pub fn take_envelope_exec(b: &[u8]) -> (r: Option<(DeltaMetadata, Vec<u8>)>)
    ensures
        match r {
            Some((m, p)) => take_envelope(b@) matches Some(((mv, pv), _)) && mv == m@ && pv == p@,
            None => take_envelope(b@) is None,
        },
{
    let (m, r1) = match take_delta_metadata_exec(b) { Some(x) => x, None => return None };
    let (payload, _r2) = match take_bytes(r1) { Some(x) => x, None => return None };
    Some((m, payload))
}

/// First-version format, as read.
enum LegacyFormat {
    Full(CheckpointMetadata),
    Delta { base_index: u64, entries: Vec<DeltaEntry> },
}

spec fn legacy_format_view(f: LegacyFormat) -> LegacyFormatView {
    match f {
        LegacyFormat::Full(cm) => LegacyFormatView::Full(cm@),
        LegacyFormat::Delta { base_index, entries } => LegacyFormatView::Delta { base_index, entries: delta_views(entries@) },
    }
}

fn take_legacy_format_exec(b: &[u8]) -> (r: Option<(LegacyFormat, &[u8])>)
    ensures
        match r {
            Some((f, rest)) => take_legacy_format(b@) == Some((legacy_format_view(f), rest@)),
            None => take_legacy_format(b@) is None,
        },
{
    let (tag, r1) = match take_u32(b) { Some(x) => x, None => return None };
    if tag == 0 {
        match CheckpointMetadata::take(r1) {
            Some((cm, r2)) => Some((LegacyFormat::Full(cm), r2)),
            None => None,
        }
    } else if tag == 1 {
        let (base_index, r2) = match take_u64(r1) { Some(x) => x, None => return None };
        let (entries, r3) = match take_delta_entry_list(r2) { Some(x) => x, None => return None };
        Some((LegacyFormat::Delta { base_index, entries }, r3))
    } else {
        None
    }
}

/// Reads a snapshot payload: the current envelope, or a first-version one
/// converted to the current form (`Ok(None)` when it is neither). A delta
/// whose entries cannot be decompressed or decoded is a `Snapshot` error.
pub fn decode_snapshot_payload(payload: &[u8]) -> (r: Result<Option<DecodedSnapshotPayload>, RaftError>)
    ensures
        match r {
            Ok(Some(d)) => decode_snapshot_payload_spec(payload@) == Ok::<Option<DecodedView>, ()>(Some(d@)),
            Ok(None) => decode_snapshot_payload_spec(payload@) == Ok::<Option<DecodedView>, ()>(None),
            Err(e) => decode_snapshot_payload_spec(payload@) is Err
                && (e matches RaftError::Snapshot(m) && m@ == snapshot_payload_error(payload@)),
        },
{
    if let Some((metadata, body)) = take_envelope_exec(payload) {
        return match metadata.format {
            SnapshotFormat::Delta { .. } => {
                match DeltaSnapshotCodec::decode_entries(body.as_slice()) {
                    Ok(entries) => Ok(Some(DecodedSnapshotPayload::Delta { metadata, entries })),
                    Err(e) => Err(e),
                }
            },
            SnapshotFormat::Full { .. } => Ok(Some(DecodedSnapshotPayload::Full(metadata))),
        };
    }
    let (format, r1) = match take_legacy_format_exec(payload) { Some(x) => x, None => return Ok(None) };
    let (size_bytes, r2) = match take_u64(r1) { Some(x) => x, None => return Ok(None) };
    let (created_at, r3) = match take_u64(r2) { Some(x) => x, None => return Ok(None) };
    let (file_path, r4) = match take_opt_str(r3) { Some(x) => x, None => return Ok(None) };
    let (_version, r5) = match take_u16(r4) { Some(x) => x, None => return Ok(None) };
    let (_payload, _r6) = match take_bytes(r5) { Some(x) => x, None => return Ok(None) };
    match format {
        LegacyFormat::Full(checkpoint_meta) => {
            let metadata = DeltaMetadata {
                format: SnapshotFormat::Full { checkpoint_meta },
                size_bytes,
                created_at,
                file_path,
                version: 2,
            };
            Ok(Some(DecodedSnapshotPayload::Full(metadata)))
        },
        LegacyFormat::Delta { base_index, entries } => {
            let metadata = DeltaMetadata {
                format: SnapshotFormat::Delta { base_index, entry_count: entries.len() as u64 },
                size_bytes,
                created_at,
                file_path,
                version: 2,
            };
            Ok(Some(DecodedSnapshotPayload::Delta { metadata, entries }))
        },
    }
}

/// The delta entries of a payload when it is a delta snapshot, `None` for a
/// full snapshot or an unreadable payload.
pub fn decode_delta_entries_from_payload(payload: &[u8]) -> (r: Result<Option<Vec<DeltaEntry>>, RaftError>)
    ensures
        match r {
            Ok(Some(es)) => decode_snapshot_payload_spec(payload@) matches Ok(Some(DecodedView::Delta { entries, .. }))
                && entries == delta_views(es@),
            Ok(None) => decode_snapshot_payload_spec(payload@) matches Ok(d) && !(d matches Some(DecodedView::Delta { .. })),
            Err(e) => decode_snapshot_payload_spec(payload@) is Err
                && (e matches RaftError::Snapshot(m) && m@ == snapshot_payload_error(payload@)),
        },
{
    match decode_snapshot_payload(payload) {
        Ok(Some(DecodedSnapshotPayload::Delta { entries, .. })) => Ok(Some(entries)),
        Ok(_) => Ok(None),
        Err(e) => Err(e),
    }
}

} // verus!
