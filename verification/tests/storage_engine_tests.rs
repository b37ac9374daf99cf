use raftkv::error::RaftError;
use raftkv::merge::policy::{DeltaMergePolicy, MergeTrigger};
use raftkv::snapshot::delta::DeltaSnapshotCodec;
use raftkv::snapshot::encode_envelope;
use raftkv::snapshot::metadata::CheckpointMetadata as FullCheckpointMetadata;
use raftkv::snapshot::builder::RaftSnapshotBuilder;
use raftkv::state::{CheckpointMetadata, DeltaInfo, MergeProgressState, SnapshotMetaState};
use raftkv::storage::engine::{
    CommittedPayload,
    range_end_inclusive, range_start, IndexBound, InstallOutcome, SurrealStorage, ERR_SNAPSHOT_INSTALL_BASE_MISMATCH,
    ERR_SNAPSHOT_INSTALL_DELTA_APPLY_DECODE, ERR_SNAPSHOT_INSTALL_DELTA_DECODE, ERR_SNAPSHOT_INSTALL_INVALID_PAYLOAD,
};
use raftkv::types::{DeltaEntry, DeltaMetadata, KVRequest, KVResponse, SnapshotFormat};

fn put(key: &str, value: &[u8]) -> KVRequest {
    KVRequest::Put { key: key.to_string(), value: value.to_vec() }
}

fn snapshot_message(e: &RaftError) -> String {
    match e {
        RaftError::Snapshot(m) => m.clone(),
        other => panic!("expected a snapshot error, got {:?}", other),
    }
}

fn delta_envelope(base_index: u64, entries: &[DeltaEntry]) -> Vec<u8> {
    let compressed = DeltaSnapshotCodec::encode_entries(entries).unwrap();
    let metadata = DeltaMetadata::new(
        SnapshotFormat::Delta { base_index, entry_count: entries.len() as u64 },
        compressed.len() as u64,
        1,
    );
    encode_envelope(&metadata, &compressed)
}

#[test]
fn apply_set_then_read() {
    let mut storage = SurrealStorage::new();
    let resp = storage.apply_request(&put("test", &[1, 2, 3]));
    assert_eq!(resp, KVResponse::Success);
    assert_eq!(storage.read("test"), Some(vec![1, 2, 3]));
}

#[test]
fn apply_delete_then_read() {
    let mut storage = SurrealStorage::new();
    storage.apply_request(&put("test", &[1, 2, 3]));
    storage.apply_request(&KVRequest::Delete { key: "test".to_string() });
    assert_eq!(storage.read("test"), None);
}

#[test]
fn later_write_wins_and_other_keys_stay() {
    let mut storage = SurrealStorage::new();
    storage.apply_request(&put("a", b"1"));
    storage.apply_request(&put("b", b"2"));
    storage.apply_request(&put("a", b"3"));
    assert_eq!(storage.read("a"), Some(b"3".to_vec()));
    assert_eq!(storage.read("b"), Some(b"2".to_vec()));
}

#[test]
fn log_entries_range() {
    let mut storage = SurrealStorage::new();
    for i in 1..=5u64 {
        storage.append_log_entry(1, i, &put(&format!("k{}", i), &[i as u8]));
    }
    let entries = storage.try_get_log_entries(2, 4);
    assert_eq!(entries.len(), 3);
    assert_eq!(entries[0].index, 2);
    assert_eq!(entries[2].index, 4);
    assert_eq!(storage.metadata().applied.last_applied_index, 5);
    assert_eq!(storage.metadata().applied.last_applied_term, 1);
    // The payload is the request's encoding.
    assert_eq!(KVRequest::decode(&entries[0].payload), Some(put("k2", &[2])));
}

#[test]
fn log_entries_by_bounds() {
    let mut storage = SurrealStorage::new();
    for i in 1..=5u64 {
        storage.append_log_entry(1, i, &put("k", &[i as u8]));
    }
    assert_eq!(range_start(IndexBound::Excluded(1)), 2);
    assert_eq!(range_end_inclusive(IndexBound::Excluded(5)), 4);
    assert_eq!(range_start(IndexBound::Unbounded), 0);
    assert_eq!(range_end_inclusive(IndexBound::Unbounded), u64::MAX);
    let es = storage.log_entries_in(IndexBound::Excluded(1), IndexBound::Excluded(5));
    assert_eq!(es.iter().map(|e| e.index).collect::<Vec<_>>(), vec![2, 3, 4]);
    assert!(storage.log_entries_in(IndexBound::Included(4), IndexBound::Included(3)).is_empty());
}

#[test]
fn install_rejects_base_index_mismatch() {
    let mut dst = SurrealStorage::new();
    dst.append_log_entry(1, 1, &put("k", &[1]));

    let entries = vec![DeltaEntry::new(1, 1, put("x", &[9]).encode())];
    let bytes = delta_envelope(0, &entries);

    let err = dst.install_snapshot_auto(&bytes).unwrap_err();
    let msg = snapshot_message(&err);
    assert!(msg.contains(ERR_SNAPSHOT_INSTALL_BASE_MISMATCH));
    assert_eq!(msg, "SNAPSHOT_INSTALL_BASE_MISMATCH: expected=0, got=1");
    assert_eq!(dst.read("x"), None);
    let samples = dst.take_metric_samples();
    assert_eq!(samples.len(), 1);
    assert_eq!(samples[0].name, "snapshot_strict_error_validate_base_total");
}

#[test]
fn install_rejects_unknown_payload() {
    let mut storage = SurrealStorage::new();
    let err = storage.install_snapshot_auto(&[1, 2, 3, 4, 5]).unwrap_err();
    assert!(snapshot_message(&err).contains(ERR_SNAPSHOT_INSTALL_INVALID_PAYLOAD));
    let samples = storage.take_metric_samples();
    assert_eq!(samples[0].name, "snapshot_strict_error_reject_payload_total");
}

#[test]
fn install_rejects_corrupted_delta_payload() {
    let mut storage = SurrealStorage::new();
    let metadata = DeltaMetadata::new(SnapshotFormat::Delta { base_index: 0, entry_count: 1 }, 5, 1);
    let bytes = encode_envelope(&metadata, &vec![1, 2, 3, 4, 5]);
    let err = storage.install_snapshot_auto(&bytes).unwrap_err();
    assert!(snapshot_message(&err).contains(ERR_SNAPSHOT_INSTALL_DELTA_DECODE));
    let samples = storage.take_metric_samples();
    assert_eq!(samples[0].name, "snapshot_strict_error_decode_payload_total");
}

#[test]
fn install_replays_delta_entries() {
    let mut storage = SurrealStorage::new();
    let entries = vec![
        DeltaEntry::new(2, 1, put("a", b"1").encode()),
        DeltaEntry::new(2, 2, put("b", b"2").encode()),
        DeltaEntry::new(2, 3, KVRequest::Delete { key: "a".to_string() }.encode()),
    ];
    let bytes = delta_envelope(0, &entries);
    assert_eq!(storage.install_snapshot_auto(&bytes).unwrap(), InstallOutcome::AppliedDelta);
    assert_eq!(storage.read("a"), None);
    assert_eq!(storage.read("b"), Some(b"2".to_vec()));
    assert_eq!(storage.metadata().applied.last_applied_index, 3);
    assert_eq!(storage.metadata().applied.last_applied_term, 2);
    assert_eq!(storage.try_get_log_entries(1, 3).len(), 3);
    assert!(storage.take_metric_samples().is_empty());
}

#[test]
fn replay_stops_at_undecodable_entry() {
    let mut storage = SurrealStorage::new();
    let entries = vec![DeltaEntry::new(1, 1, put("a", b"1").encode()), DeltaEntry::new(1, 2, vec![9, 9, 9])];
    let err = storage.apply_delta_entries(&entries).unwrap_err();
    let msg = snapshot_message(&err);
    assert!(msg.contains(ERR_SNAPSHOT_INSTALL_DELTA_APPLY_DECODE));
    assert_eq!(msg, "SNAPSHOT_INSTALL_DELTA_APPLY_DECODE: index=2, cause=invalid request payload");
    assert_eq!(storage.read("a"), Some(b"1".to_vec()));
    assert_eq!(storage.metadata().applied.last_applied_index, 1);
}

#[test]
fn full_snapshot_is_left_to_restore() {
    let mut storage = SurrealStorage::new();
    let meta = FullCheckpointMetadata::new(7, 2, 0, "target/checkpoints".to_string());
    let bytes = RaftSnapshotBuilder::full_payload(meta, 3, &vec![1, 2, 3], 50);
    assert_eq!(storage.install_snapshot_auto(&bytes).unwrap(), InstallOutcome::RestoreFull);
}

#[test]
fn built_full_snapshot_resets_chain() {
    let mut storage = SurrealStorage::new();
    let mut meta = FullCheckpointMetadata::new(7, 2, 0, "target/checkpoints".to_string());
    meta.timestamp = 1234;
    let bytes = RaftSnapshotBuilder::full_payload(meta, 3, &vec![1, 2, 3], 50);
    storage.record_built_snapshot(&bytes, 7, 2).unwrap();
    let s = &storage.metadata().snapshot;
    let cp = s.last_checkpoint.as_ref().unwrap();
    assert_eq!(cp.checkpoint_index, 7);
    assert_eq!(cp.checkpoint_term, 2);
    assert_eq!(cp.sequence_number, 0);
    assert_eq!(cp.created_at, 1234);
    assert_eq!(cp.checkpoint_path.as_deref(), Some("target/checkpoints/checkpoint_1234"));
    assert!(s.delta_chain.is_empty());
    assert_eq!(s.total_delta_bytes, 0);
}

#[test]
fn built_delta_snapshot_joins_chain() {
    let mut storage = SurrealStorage::new();
    let entries = vec![DeltaEntry::new(1, 5, put("a", b"1").encode()), DeltaEntry::new(1, 6, put("b", b"2").encode())];
    let compressed = DeltaSnapshotCodec::encode_entries(&entries).unwrap();
    let bytes = RaftSnapshotBuilder::delta_payload(&compressed, 4, 2, 99, "target/tmp/deltas/d.bin.zst".to_string());
    storage.record_built_snapshot(&bytes, 6, 1).unwrap();
    let s = &storage.metadata().snapshot;
    assert_eq!(s.delta_chain.len(), 1);
    assert_eq!(s.delta_chain[0].start_index, 5);
    assert_eq!(s.delta_chain[0].end_index, 6);
    assert_eq!(s.delta_chain[0].size_bytes, compressed.len() as u64);
    assert_eq!(s.delta_chain[0].created_at, 99);
    assert_eq!(s.delta_chain[0].file_path.as_deref(), Some("target/tmp/deltas/d.bin.zst"));
    assert_eq!(s.total_delta_bytes, compressed.len() as u64);
}

#[test]
fn non_snapshot_bytes_leave_chain() {
    let mut storage = SurrealStorage::new();
    storage.record_built_snapshot(&[1, 2, 3], 1, 1).unwrap();
    assert!(storage.metadata().snapshot.last_checkpoint.is_none());
}

#[test]
fn delta_entries_since_checkpoint_starts_after_checkpoint() {
    let mut storage = SurrealStorage::new();
    for i in 1..=6u64 {
        storage.append_log_entry(1, i, &put("k", &[i as u8]));
    }
    let mut state = SnapshotMetaState::new();
    state.last_checkpoint = Some(CheckpointMetadata::new(3, 1, 0, 10));
    storage.save_merge_records(Some(state), MergeProgressState::new());
    let es = storage.delta_entries_since_checkpoint();
    assert_eq!(es.iter().map(|e| e.index).collect::<Vec<_>>(), vec![4, 5, 6]);
}

fn long_chain() -> SnapshotMetaState {
    let mut state = SnapshotMetaState::new();
    state.last_checkpoint = Some(CheckpointMetadata::new(10, 2, 8, 1).with_checkpoint_path("cp".to_string()));
    for i in 0..5 {
        state.delta_chain.push(DeltaInfo::new(i * 10, i * 10 + 9, 10, 2));
    }
    state.total_delta_bytes = 50;
    state
}

#[test]
fn merge_recovery_clears_exhausted_retries() {
    let mut storage = SurrealStorage::new().with_default_merge("1".to_string());
    storage.save_merge_records(Some(long_chain()), MergeProgressState::started("chain_length".to_string(), 3, 3, 5));
    assert!(storage.recover_merge_state(100).is_none());
    let p = &storage.metadata().merge_progress;
    assert!(!p.in_progress);
    assert_eq!(p.attempt, 0);
    assert_eq!(p.trigger_reason, None);
}

#[test]
fn merge_recovery_spawns_if_policy_met() {
    let mut storage = SurrealStorage::new().with_merge_policy(DeltaMergePolicy::default(), "1".to_string());
    storage.save_merge_records(Some(long_chain()), MergeProgressState::started("chain_length".to_string(), 1, 3, 5));
    let run = storage.recover_merge_state(100).unwrap();
    assert_eq!(run.trigger, MergeTrigger::ChainTooLong);
    assert_eq!(run.max_retries, 3);
    assert_eq!(run.retries, 0);
    assert!(storage.metadata().merge_progress.in_progress);
}

#[test]
fn merge_recovery_skips_when_policy_not_met() {
    let mut storage = SurrealStorage::new().with_default_merge("1".to_string());
    storage.save_merge_records(None, MergeProgressState::started("chain_length".to_string(), 1, 3, 5));
    assert!(storage.recover_merge_state(100).is_none());
    assert!(!storage.metadata().merge_progress.in_progress);
}

#[test]
fn merge_recovery_without_executor_configured() {
    let mut storage = SurrealStorage::new();
    storage.save_merge_records(None, MergeProgressState::started("chain_length".to_string(), 1, 3, 5));
    assert!(storage.recover_merge_state(100).is_none());
    assert!(storage.metadata().merge_progress.in_progress);
}

#[test]
fn built_snapshot_starts_merge_when_chain_is_long() {
    let mut storage = SurrealStorage::new().with_default_merge("1".to_string());
    let mut state = long_chain();
    state.delta_chain.pop();
    storage.save_merge_records(Some(state), MergeProgressState::new());
    let entries = vec![DeltaEntry::new(1, 60, put("a", b"1").encode())];
    let compressed = DeltaSnapshotCodec::encode_entries(&entries).unwrap();
    let bytes = RaftSnapshotBuilder::delta_payload(&compressed, 10, 1, 99, "p".to_string());
    let run = storage.finish_built_snapshot(&bytes, 60, 1, 100).unwrap().unwrap();
    assert_eq!(run.trigger, MergeTrigger::ChainTooLong);
}

#[test]
fn plan_snapshot_picks_delta_after_checkpoint() {
    let mut storage = SurrealStorage::new();
    for i in 1..=3u64 {
        storage.append_log_entry(1, i, &put("k", &[i as u8]));
    }
    let builder = RaftSnapshotBuilder::new_with_config(raftkv::snapshot::builder::SnapshotBuildConfig::default());
    assert!(matches!(storage.plan_snapshot(&builder, 100).unwrap(), raftkv::snapshot::builder::SnapshotKind::Full));
    let mut state = SnapshotMetaState::new();
    state.last_checkpoint = Some(CheckpointMetadata::new(1, 1, 0, 90));
    storage.save_merge_records(Some(state), MergeProgressState::new());
    match storage.plan_snapshot(&builder, 100).unwrap() {
        raftkv::snapshot::builder::SnapshotKind::Delta { compressed, base_index, entry_count } => {
            assert_eq!((base_index, entry_count), (1, 2));
            let es = DeltaSnapshotCodec::decode_entries(&compressed).unwrap();
            assert_eq!(es.iter().map(|e| e.index).collect::<Vec<_>>(), vec![2, 3]);
        }
        _ => panic!("expected a delta"),
    }
}

#[test]
fn committed_entries_advance_applied_position() {
    let mut storage = SurrealStorage::new();
    assert_eq!(storage.applied_position(), None);
    storage.apply_committed(1, 1, &CommittedPayload::Blank);
    storage.apply_committed(1, 2, &CommittedPayload::Normal(put("a", b"1")));
    storage.apply_committed(1, 3, &CommittedPayload::Membership);
    assert_eq!(storage.applied_position(), Some((1, 3)));
    assert_eq!(storage.read("a"), Some(b"1".to_vec()));
    assert_eq!(storage.try_get_log_entries(0, 10).len(), 1);
    storage.finish_install(Some((4, 9)));
    assert_eq!(storage.applied_position(), Some((4, 9)));
}
