use raftkv::error::RaftError;
use raftkv::merge::checkpoint_backend::{merge_snapshot_error, CheckpointMergeBackend};
use raftkv::merge::cleanup::{MergeCleanup, MergeCleanupConfig};
use raftkv::merge::error_codes::{
    MERGE_ERR_BASELINE_MISSING, MERGE_ERR_BASELINE_PATH_MISSING, MERGE_ERR_BASELINE_PATH_REQUIRED, MERGE_ERR_INJECTED_FAILURE,
};
use raftkv::merge::executor::{
    build_merged_snapshot_state, merge_error_code, MergeBackend, MergeExecution, MergeExecutor, MergeFailure, MergeRun,
    MetadataOnlyMergeBackend,
};
use raftkv::merge::policy::{DeltaMergePolicy, MergeTrigger};
use raftkv::metrics::MergeMetrics;
use raftkv::state::{CheckpointMetadata, DeltaInfo, SnapshotMetaState};
use raftkv::types::{DeltaEntry, KVRequest};

fn chain_state() -> SnapshotMetaState {
    let mut state = SnapshotMetaState::new();
    state.last_checkpoint = Some(CheckpointMetadata::new(10, 2, 8, 1));
    for i in 0..5 {
        state.delta_chain.push(DeltaInfo::new(i * 10, i * 10 + 9, 10, 2));
    }
    state.total_delta_bytes = 50;
    state
}

fn snapshot_message(e: &RaftError) -> String {
    match e {
        RaftError::Snapshot(m) => m.clone(),
        other => panic!("expected a snapshot error, got {:?}", other),
    }
}

#[test]
fn executor_retry_until_success() {
    let executor = MergeExecutor::new(
        DeltaMergePolicy::default(),
        MergeMetrics::new("1".to_string()),
        MergeCleanup::new(MergeCleanupConfig::default()),
    )
    .with_max_retries(3);
    let state = chain_state();
    let mut run = executor.spawn_if_needed(&state, 100).unwrap();
    assert_eq!(run.trigger, MergeTrigger::ChainTooLong);

    let p1 = run.begin_attempt();
    assert!(p1.in_progress);
    assert_eq!(p1.attempt, 1);
    let injected = merge_snapshot_error(MERGE_ERR_INJECTED_FAILURE, "injected failure");
    assert!(matches!(run.fail(injected), MergeFailure::Retry));

    let p2 = run.begin_attempt();
    assert_eq!(p2.attempt, 2);
    assert_eq!(p2.trigger_reason.as_deref(), Some("chain_length"));
    let exec = MergeExecution { checkpoint_size_bytes: 4096, checkpoint_path: Some("target/checkpoints/checkpoint_test".to_string()) };
    let (merged, progress) = run.succeed(state, &exec);
    assert!(!progress.in_progress);
    assert_eq!(progress.attempt, 2);
    assert!(merged.delta_chain.is_empty());
    assert_eq!(merged.total_delta_bytes, 0);
    let cp = merged.last_checkpoint.unwrap();
    assert_eq!(cp.checkpoint_index, 49);
    assert_eq!(cp.sequence_number, 9);
    assert_eq!(cp.created_at, 100);
    assert_eq!(cp.checkpoint_path.as_deref(), Some("target/checkpoints/checkpoint_test"));
    let result = run.result(&exec, Default::default());
    assert!(result.merged);
    assert_eq!(result.retries, 2);
    assert_eq!(result.checkpoint_size_bytes, 4096);
}

#[test]
fn executor_gives_up_after_max_retries() {
    let mut run = MergeRun::new(MergeTrigger::SizeTooLarge, 1, 7);
    run.begin_attempt();
    let err = merge_snapshot_error(MERGE_ERR_INJECTED_FAILURE, "injected failure");
    match run.fail(err) {
        MergeFailure::GiveUp { progress, error_code, error } => {
            assert_eq!(error_code, "MERGE_INJECTED_FAILURE");
            assert!(!progress.in_progress);
            assert_eq!(progress.attempt, 1);
            assert_eq!(progress.last_error.as_deref(), Some("Snapshot error: MERGE_INJECTED_FAILURE: injected failure"));
            assert_eq!(
                snapshot_message(&error),
                "MERGE_INJECTED_FAILURE: merge failed after 1 retries: Snapshot error: MERGE_INJECTED_FAILURE: injected failure"
            );
        }
        MergeFailure::Retry => panic!("a single attempt must not be retried"),
    }
}

#[test]
fn max_retries_is_at_least_one() {
    let ex = MergeExecutor::new(
        DeltaMergePolicy::default(),
        MergeMetrics::new("1".to_string()),
        MergeCleanup::new(MergeCleanupConfig::default()),
    )
    .with_max_retries(0);
    let run = ex.spawn_if_needed(&chain_state(), 100).unwrap();
    assert_eq!(run.max_retries, 1);
}

#[test]
fn executor_does_not_spawn_when_policy_not_triggered() {
    let ex = MergeExecutor::new(
        DeltaMergePolicy::default(),
        MergeMetrics::new("1".to_string()),
        MergeCleanup::new(MergeCleanupConfig::default()),
    );
    let mut state = SnapshotMetaState::new();
    state.last_checkpoint = Some(CheckpointMetadata::new(1, 1, 0, 100));
    assert!(ex.spawn_if_needed(&state, 110).is_none());
}

#[test]
fn merge_error_codes() {
    assert_eq!(merge_error_code(&RaftError::Snapshot("MERGE_BASELINE_MISSING: x: y".to_string())), "MERGE_BASELINE_MISSING");
    assert_eq!(merge_error_code(&RaftError::Snapshot("  MERGE_INJECTED_FAILURE  : detail".to_string())), "MERGE_INJECTED_FAILURE");
    assert_eq!(merge_error_code(&RaftError::Snapshot("  CODE  : detail".to_string())), "MERGE_UNKNOWN");
    assert_eq!(merge_error_code(&RaftError::Snapshot("checkpoint write failed: disk full".to_string())), "MERGE_UNKNOWN");
    assert_eq!(merge_error_code(&RaftError::Snapshot(": detail".to_string())), "MERGE_UNKNOWN");
    assert_eq!(merge_error_code(&RaftError::Snapshot("no colon".to_string())), "MERGE_UNKNOWN");
    assert_eq!(merge_error_code(&RaftError::Storage("x: y".to_string())), "MERGE_UNKNOWN");
}

#[test]
fn merged_state_without_backend_path() {
    let merged = build_merged_snapshot_state(chain_state(), 77, &None);
    let cp = merged.last_checkpoint.unwrap();
    assert_eq!(cp.checkpoint_path.as_deref(), Some("target/checkpoints/checkpoint_77"));
    assert_eq!(cp.checkpoint_term, 2);
    let none = build_merged_snapshot_state(SnapshotMetaState::new(), 77, &None);
    assert!(none.last_checkpoint.is_none());
}

#[test]
fn metadata_only_backend_reports_chain() {
    let mut state = chain_state();
    state.last_checkpoint = Some(CheckpointMetadata::new(10, 2, 8, 1).with_checkpoint_path("cp".to_string()));
    let exec = MetadataOnlyMergeBackend.execute_merge(&state).unwrap();
    assert_eq!(exec.checkpoint_size_bytes, 50);
    assert_eq!(exec.checkpoint_path.as_deref(), Some("cp"));
}

#[test]
fn cleanup_expired_delta_file() {
    let mut state = SnapshotMetaState::new();
    state.delta_chain.push(DeltaInfo::new(1, 2, 1, 10).with_file_path("delta.bin".to_string()));
    state.delta_chain.push(DeltaInfo::new(3, 4, 1, 18).with_file_path("fresh.bin".to_string()));
    state.delta_chain.push(DeltaInfo::new(5, 6, 1, 0));

    let cleanup = MergeCleanup::new(MergeCleanupConfig { max_delta_age_secs: 5, ..MergeCleanupConfig::default() });
    let removed = cleanup.expired_delta_files(&state, 20);
    assert_eq!(removed, vec!["delta.bin".to_string()]);
}

#[test]
fn cleanup_temp_dirs_and_old_checkpoints() {
    let cleanup = MergeCleanup::new(MergeCleanupConfig::default());
    let temps = vec![("a".to_string(), 0u64), ("b".to_string(), 9000u64)];
    assert_eq!(cleanup.expired_temp_dirs(&temps, 10000), vec!["a".to_string()]);

    let dirs = vec![
        ("c5".to_string(), 50u64),
        ("c1".to_string(), 10u64),
        ("c3".to_string(), 30u64),
        ("c2".to_string(), 20u64),
        ("c4".to_string(), 40u64),
    ];
    assert_eq!(cleanup.stale_checkpoint_dirs(&dirs), vec!["c1".to_string(), "c2".to_string()]);
    assert!(cleanup.stale_checkpoint_dirs(&dirs[..3].to_vec()).is_empty());
}

#[test]
fn checkpoint_backend_fails_fast() {
    let backend = CheckpointMergeBackend::new();
    let err = backend.resolve_baseline_checkpoint(&SnapshotMetaState::new()).unwrap_err();
    assert!(snapshot_message(&err).contains(MERGE_ERR_BASELINE_MISSING));

    let mut state = SnapshotMetaState::new();
    state.last_checkpoint = Some(CheckpointMetadata::new(10, 2, 1, 100));
    let err = backend.resolve_baseline_checkpoint(&state).unwrap_err();
    assert!(snapshot_message(&err).contains(MERGE_ERR_BASELINE_PATH_REQUIRED));

    state.last_checkpoint = Some(CheckpointMetadata::new(10, 2, 1, 100).with_checkpoint_path("/x".to_string()));
    assert_eq!(backend.resolve_baseline_checkpoint(&state).unwrap(), "/x");

    let missing = CheckpointMergeBackend::baseline_path_missing("/not-exist");
    assert_eq!(snapshot_message(&missing), "MERGE_BASELINE_PATH_MISSING: baseline checkpoint path missing: /not-exist");
    assert!(snapshot_message(&missing).contains(MERGE_ERR_BASELINE_PATH_MISSING));
}

#[test]
fn checkpoint_backend_position_and_size() {
    let state = chain_state();
    assert_eq!(CheckpointMergeBackend::checkpoint_position(&state), (49, 2));
    let mut no_delta = SnapshotMetaState::new();
    no_delta.last_checkpoint = Some(CheckpointMetadata::new(10, 2, 1, 100));
    assert_eq!(CheckpointMergeBackend::checkpoint_position(&no_delta), (10, 2));
    assert_eq!(CheckpointMergeBackend::checkpoint_position(&SnapshotMetaState::new()), (0, 0));
    assert_eq!(CheckpointMergeBackend::reported_size(10, &state), 50);
    assert_eq!(CheckpointMergeBackend::reported_size(100, &state), 100);
    assert_eq!(CheckpointMergeBackend::new().with_temp_base("t".to_string()).temp_base_dir(), "t");
    assert_eq!(CheckpointMergeBackend::new().temp_base_dir(), "target/tmp/merge");
}

#[test]
fn checkpoint_backend_decodes_entries() {
    let ok = DeltaEntry::new(1, 1, KVRequest::Delete { key: "k".to_string() }.encode());
    assert_eq!(CheckpointMergeBackend::decode_entry(&ok).unwrap(), KVRequest::Delete { key: "k".to_string() });
    let bad = DeltaEntry::new(1, 1, vec![7]);
    assert!(matches!(CheckpointMergeBackend::decode_entry(&bad), Err(RaftError::Serialization(_))));
}

#[test]
fn cleanup_keeps_exactly_the_newest_checkpoints_with_ties() {
    let cleanup = MergeCleanup::new(MergeCleanupConfig { retain_last_checkpoints: 2, ..MergeCleanupConfig::default() });
    let dirs = vec![
        ("x".to_string(), 30u64),
        ("y".to_string(), 10u64),
        ("z".to_string(), 10u64),
        ("w".to_string(), 30u64),
    ];
    // Equal times are ordered as listed: y before z, x before w.
    let removed = cleanup.stale_checkpoint_dirs(&dirs);
    assert_eq!(removed, vec!["y".to_string(), "z".to_string()]);
    assert_eq!(removed.len(), dirs.len() - 2);
    let one = MergeCleanup::new(MergeCleanupConfig { retain_last_checkpoints: 3, ..MergeCleanupConfig::default() });
    assert_eq!(one.stale_checkpoint_dirs(&dirs), vec!["y".to_string()]);
}
