//! Building a snapshot: the choice between a delta and a full checkpoint,
//! the envelope bytes of either, their identifiers and file names, and the
//! node identity recorded in the snapshot's membership.

use vstd::prelude::*;
use crate::error::RaftError;
use crate::merge::cleanup::age;
use crate::snapshot::{decode_snapshot_payload_spec, envelope_bytes, encode_envelope, take_envelope, take_envelope_exec, DecodedView};
use crate::types::DeltaEntryView;
use crate::snapshot::delta::{decode_delta_payload, delta_views, zstd_frame, delta_list_bytes, DeltaSnapshotCodec, DELTA_ZSTD_LEVEL};
use crate::snapshot::metadata::CheckpointMetadata;
use crate::state::SnapshotMetaState;
use crate::text::{decimal, parse_u64, parse_u64_spec, push_decimal};
use crate::types::{DeltaEntry, DeltaMetadata, DeltaMetadataView, SnapshotFormat, SnapshotFormatView};

verus! {

/// Entry count at or above which a delta is taken whatever the checkpoint's age.
pub const DELTA_ENTRY_THRESHOLD: usize = 1000;
/// Largest compressed delta (5 MiB).
pub const DELTA_MAX_BYTES: u64 = 5242880;
/// Age of the last checkpoint (a day) up to which a small delta is taken.
pub const DELTA_MAX_AGE_SECS: u64 = 86400;

/// Whether a delta rather than a full snapshot is taken: there must be a
/// full checkpoint to build on, at least one entry and at most 5 MiB of
/// compressed entries; then either 1000 entries or more, or a checkpoint at
/// most a day old.
pub open spec fn delta_chosen(s: SnapshotMetaState, entries: nat, size_bytes: u64, now: u64) -> bool {
    match s.last_checkpoint {
        None => false,
        Some(cp) => entries > 0 && size_bytes <= DELTA_MAX_BYTES
            && (entries >= DELTA_ENTRY_THRESHOLD || age(now, cp.created_at) <= DELTA_MAX_AGE_SECS),
    }
}

/// Computes [`delta_chosen`].
pub fn should_build_delta(snapshot_state: &SnapshotMetaState, entries: usize, size_bytes: u64, now: u64) -> (b: bool)
    ensures
        b == delta_chosen(*snapshot_state, entries as nat, size_bytes, now),
{
    match &snapshot_state.last_checkpoint {
        None => false,
        Some(cp) => {
            if entries == 0 || size_bytes > DELTA_MAX_BYTES {
                return false;
            }
            let by_entry_threshold = entries >= DELTA_ENTRY_THRESHOLD;
            let within_time_window = now.saturating_sub(cp.created_at) <= DELTA_MAX_AGE_SECS;
            by_entry_threshold || within_time_window
        },
    }
}

/// Node identity and term recorded in built snapshots.
#[derive(Debug, Clone, PartialEq, Eq)]
pub struct SnapshotBuildConfig {
    pub node_id: u64,
    pub node_addr: String,
    pub current_term: u64,
}

impl Default for SnapshotBuildConfig {
    /// Node 1 at `127.0.0.1:50051`, term 0.
    fn default() -> (c: Self)
        ensures
            c.node_id == 1,
            c.node_addr@ == "127.0.0.1:50051"@,
            c.current_term == 0,
    {
        SnapshotBuildConfig { node_id: 1, node_addr: String::from_str("127.0.0.1:50051"), current_term: 0 }
    }
}

impl SnapshotBuildConfig {
    /// The first member of a membership list (node id, address), at term 0;
    /// an empty list is a snapshot error.
    pub fn from_members(members: &Vec<(u64, String)>) -> (r: Result<Self, RaftError>)
        ensures
            match r {
                Ok(c) => members@.len() > 0 && c.node_id == members@[0].0
                    && c.node_addr@ == members@[0].1@ && c.current_term == 0,
                Err(e) => members@.len() == 0
                    && (e matches RaftError::Snapshot(m) && m@ == "membership json contains no nodes"@),
            },
    {
        if members.len() == 0 {
            return Err(RaftError::Snapshot(String::from_str("membership json contains no nodes")));
        }
        Ok(SnapshotBuildConfig { node_id: members[0].0, node_addr: members[0].1.clone(), current_term: 0 })
    }

    /// Configuration from the `NODE_ID`, `LISTEN_ADDR` and `CURRENT_TERM`
    /// settings: an absent or unparsable id is 1, an absent address
    /// `127.0.0.1:50051`, an absent or unparsable term 0.
    pub fn from_settings(node_id: Option<&str>, listen_addr: Option<String>, current_term: Option<&str>) -> (c: Self)
        ensures
            c.node_id == match node_id {
                Some(s) => match parse_u64_spec(s@) { Some(v) => v, None => 1 },
                None => 1,
            },
            c.node_addr@ == match listen_addr { Some(a) => a@, None => "127.0.0.1:50051"@ },
            c.current_term == match current_term {
                Some(s) => match parse_u64_spec(s@) { Some(v) => v, None => 0 },
                None => 0,
            },
    {
        let node_id = match node_id {
            Some(s) => match parse_u64(s) { Some(v) => v, None => 1 },
            None => 1,
        };
        let node_addr = match listen_addr {
            Some(a) => a,
            None => String::from_str("127.0.0.1:50051"),
        };
        let current_term = match current_term {
            Some(s) => match parse_u64(s) { Some(v) => v, None => 0 },
            None => 0,
        };
        SnapshotBuildConfig { node_id, node_addr, current_term }
    }
}

/// The kind of snapshot to build.
#[derive(Debug)]
pub enum SnapshotKind {
    /// A delta on top of the checkpoint at `base_index`, with the compressed
    /// entry list.
    Delta { compressed: Vec<u8>, base_index: u64, entry_count: u64 },
    /// A full checkpoint.
    Full,
}

/// Builds snapshots for one node.
#[derive(Debug, Clone)]
pub struct RaftSnapshotBuilder {
    pub build_cfg: SnapshotBuildConfig,
}

/// Metadata of a delta snapshot.
pub open spec fn delta_metadata_view(base_index: u64, entry_count: u64, size: u64, now: u64, path: Seq<char>) -> DeltaMetadataView {
    DeltaMetadataView {
        format: SnapshotFormatView::Delta { base_index, entry_count },
        size_bytes: size,
        created_at: now,
        file_path: Some(path),
        version: 2,
    }
}

/// Text `{prefix}-{index}-{time}` (snapshot identifiers).
pub open spec fn snapshot_id_text(prefix: Seq<char>, index: u64, time: u64) -> Seq<char> {
    prefix + "-"@ + decimal(index as nat) + "-"@ + decimal(time as nat)
}

impl RaftSnapshotBuilder {
    pub fn new_with_config(build_cfg: SnapshotBuildConfig) -> (b: Self)
        ensures
            b.build_cfg == build_cfg,
    {
        RaftSnapshotBuilder { build_cfg }
    }

    /// Chooses between a delta and a full snapshot for `delta_entries` (the
    /// entries applied since the last checkpoint) at time `now`: the entries
    /// are compressed, and a delta is taken when [`delta_chosen`] holds for
    /// their count and compressed size.
    pub fn choose_kind(&self, snapshot_state: &SnapshotMetaState, delta_entries: &[DeltaEntry], now: u64) -> (r: Result<SnapshotKind, RaftError>)
        ensures
            match r {
                Ok(SnapshotKind::Delta { compressed, base_index, entry_count }) => {
                    &&& compressed@ == zstd_frame(delta_list_bytes(delta_views(delta_entries@)), DELTA_ZSTD_LEVEL)
                    &&& decode_delta_payload(compressed@) == Some(delta_views(delta_entries@))
                    &&& delta_chosen(*snapshot_state, delta_entries@.len(), compressed@.len() as u64, now)
                    &&& base_index == snapshot_state.last_checkpoint->0.checkpoint_index
                    &&& entry_count == delta_entries@.len()
                },
                Ok(SnapshotKind::Full) => !delta_chosen(*snapshot_state, delta_entries@.len(),
                    zstd_frame(delta_list_bytes(delta_views(delta_entries@)), DELTA_ZSTD_LEVEL).len() as u64, now),
                Err(_) => false,
            },
    {
        let compressed = DeltaSnapshotCodec::encode_entries(delta_entries)?;
        let n = delta_entries.len();
        let size = compressed.len() as u64;
        if should_build_delta(snapshot_state, n, size, now) {
            let base_index = match &snapshot_state.last_checkpoint {
                Some(cp) => cp.checkpoint_index,
                None => 0,
            };
            Ok(SnapshotKind::Delta { compressed, base_index, entry_count: n as u64 })
        } else {
            Ok(SnapshotKind::Full)
        }
    }

    /// Envelope of a delta snapshot whose compressed entries were written to
    /// `file_path` at time `now`.
    pub fn delta_payload(compressed: &Vec<u8>, base_index: u64, entry_count: u64, now: u64, file_path: String) -> (r: Vec<u8>)
        ensures
            r@ == envelope_bytes(delta_metadata_view(base_index, entry_count, compressed@.len() as u64, now, file_path@), compressed@),
            take_envelope(r@) matches Some(((m, p), _))
                && m == delta_metadata_view(base_index, entry_count, compressed@.len() as u64, now, file_path@)
                && p == compressed@,
    {
        let metadata = DeltaMetadata::new(
            SnapshotFormat::Delta { base_index, entry_count },
            compressed.len() as u64,
            now,
        ).with_file_path(file_path);
        let r = encode_envelope(&metadata, compressed);
        assert(r@ + Seq::<u8>::empty() =~= r@);
        r
    }

    /// Envelope of a full snapshot: the checkpoint's metadata (with the
    /// archive's compressed size) and the archive bytes, taken at `timestamp`.
    pub fn full_payload(checkpoint_meta: CheckpointMetadata, compressed_size: u64, archive: &Vec<u8>, timestamp: u64) -> (r: Vec<u8>)
        ensures
            take_envelope(r@) matches Some(((m, p), _)) && p == archive@
                && m == (DeltaMetadataView {
                    format: SnapshotFormatView::Full(CheckpointMetadata { compressed_size, ..checkpoint_meta }@),
                    size_bytes: archive@.len() as u64,
                    created_at: timestamp,
                    file_path: None,
                    version: 2,
                }),
    {
        let full_meta = checkpoint_meta.with_compressed_size(compressed_size);
        let metadata = DeltaMetadata::new(SnapshotFormat::Full { checkpoint_meta: full_meta }, archive.len() as u64, timestamp);
        let r = encode_envelope(&metadata, archive);
        assert(r@ + Seq::<u8>::empty() =~= r@);
        r
    }

    /// Snapshot identifier `{prefix}-{applied_index}-{time}` (`delta` or `full`).
    pub fn snapshot_id(prefix: &str, applied_index: u64, time: u64) -> (s: String)
        ensures
            s@ == snapshot_id_text(prefix@, applied_index, time),
    {
        proof { reveal_strlit("-"); }
        let mut s = prefix.to_owned();
        s.append("-");
        push_decimal(&mut s, applied_index);
        s.append("-");
        push_decimal(&mut s, time);
        s
    }

    /// The archive to restore from a full snapshot payload: the envelope's
    /// payload, or the whole bytes when they are not an envelope (payloads
    /// written before envelopes existed). A delta is a snapshot error: it is
    /// applied entry by entry by the storage.
    pub fn restore_archive(raw: &[u8]) -> (r: Result<Vec<u8>, RaftError>)
        ensures
            match take_envelope(raw@) {
                Some(((m, p), _)) => match m.format {
                    SnapshotFormatView::Full(_) => r matches Ok(a) && a@ == p,
                    SnapshotFormatView::Delta { .. } => (r matches Err(RaftError::Snapshot(msg))
                        && msg@ == "delta snapshot requires storage-level apply via decoded entries"@),
                },
                None => r matches Ok(a) && a@ == raw@,
            },
    {
        match take_envelope_exec(raw) {
            Some((metadata, payload)) => match metadata.format {
                SnapshotFormat::Full { .. } => Ok(payload),
                SnapshotFormat::Delta { .. } => Err(RaftError::Snapshot(String::from_str(
                    "delta snapshot requires storage-level apply via decoded entries",
                ))),
            },
            None => Ok(vstd::slice::slice_to_vec(raw)),
        }
    }
}

/// File name of a persisted delta: `delta-{time}-{suffix}.bin.zst`.
pub fn delta_file_name(time: u64, suffix: &str) -> (s: String)
    ensures
        s@ == "delta-"@ + decimal(time as nat) + "-"@ + suffix@ + ".bin.zst"@,
{
    proof {
        reveal_strlit("delta-");
        reveal_strlit("-");
        reveal_strlit(".bin.zst");
    }
    let mut s = String::from_str("delta-");
    push_decimal(&mut s, time);
    s.append("-");
    s.append(suffix);
    s.append(".bin.zst");
    s
}

/// File name of a full snapshot archive: `snapshot-{time}.tar.zst`.
pub fn archive_file_name(time: u64) -> (s: String)
    ensures
        s@ == "snapshot-"@ + decimal(time as nat) + ".tar.zst"@,
{
    proof {
        reveal_strlit("snapshot-");
        reveal_strlit(".tar.zst");
    }
    let mut s = String::from_str("snapshot-");
    push_decimal(&mut s, time);
    s.append(".tar.zst");
    s
}

/// Without a full checkpoint to build on, a delta is never taken.
pub proof fn law_no_delta_without_checkpoint(s: SnapshotMetaState, entries: nat, size_bytes: u64, now: u64)
    requires
        s.last_checkpoint is None,
    ensures
        !delta_chosen(s, entries, size_bytes, now),
{
}

/// A delta envelope carrying a readable entry list is read back as that
/// delta: its metadata and its entries.
pub proof fn law_delta_payload_decodes(b: Seq<u8>, m: DeltaMetadataView, p: Seq<u8>, rest: Seq<u8>, es: Seq<DeltaEntryView>)
    requires
        take_envelope(b) == Some(((m, p), rest)),
        m.format is Delta,
        decode_delta_payload(p) == Some(es),
    ensures
        decode_snapshot_payload_spec(b) == Ok::<Option<DecodedView>, ()>(Some(DecodedView::Delta { metadata: m, entries: es })),
{
}

/// A full envelope is read back as a full snapshot with its metadata.
pub proof fn law_full_payload_decodes(b: Seq<u8>, m: DeltaMetadataView, p: Seq<u8>, rest: Seq<u8>)
    requires
        take_envelope(b) == Some(((m, p), rest)),
        m.format is Full,
    ensures
        decode_snapshot_payload_spec(b) == Ok::<Option<DecodedView>, ()>(Some(DecodedView::Full(m))),
{
}

/// A delta is taken exactly when there is a full checkpoint, at least one
/// entry, at most 5 MiB (5242880 bytes) of compressed entries, and either
/// 1000 entries or more or a checkpoint at most a day (86400 s) old at
/// `now` (age zero for a checkpoint from the future).
pub proof fn law_delta_choice(s: SnapshotMetaState, entries: nat, size_bytes: u64, now: u64)
    ensures
        delta_chosen(s, entries, size_bytes, now) <==> (s.last_checkpoint is Some && entries > 0 && size_bytes <= 5242880
            && (entries >= 1000 || (if now >= s.last_checkpoint->0.created_at {
                now - s.last_checkpoint->0.created_at
            } else {
                0
            }) <= 86400)),
{
}

/// With a checkpoint, 1000 entries or more in at most 5 MiB are taken as a
/// delta at every time, however old the checkpoint.
pub proof fn law_many_entries_take_delta(s: SnapshotMetaState, entries: nat, size_bytes: u64, now: u64)
    requires
        s.last_checkpoint is Some,
        entries >= 1000,
        size_bytes <= 5242880,
    ensures
        delta_chosen(s, entries, size_bytes, now),
{
}

/// A delta taken at some time is also taken at any earlier time not before
/// the checkpoint: the checkpoint only ages.
pub proof fn law_delta_choice_monotone_in_time(s: SnapshotMetaState, entries: nat, size_bytes: u64, now: u64, earlier: u64)
    requires
        delta_chosen(s, entries, size_bytes, now),
        s.last_checkpoint->0.created_at <= earlier <= now,
    ensures
        delta_chosen(s, entries, size_bytes, earlier),
{
}

} // verus!
