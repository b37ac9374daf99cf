use raftkv::metrics::api::HttpMetrics;
use raftkv::metrics::raft::RaftMetrics;
use raftkv::metrics::storage::StorageMetrics;
use raftkv::metrics::{
    AppMetrics, SnapshotStage, METRIC_CHECKPOINT_SIZE_BYTES, METRIC_MERGE_DURATION_MS, METRIC_MERGE_FAILED_TOTAL,
    METRIC_MERGE_SUCCESS_TOTAL,
};

#[test]
fn test_http_metrics_creation() {
    let metrics = HttpMetrics::new(1);
    metrics.record_get_kv(true, 5);
    metrics.record_put_kv(true, 10);
    metrics.record_delete_kv(true, 8);
    metrics.record_health_check(1);
}

#[test]
fn test_snapshot_stage_names_stable() {
    assert_eq!(SnapshotStage::DecodePayload.as_str(), "decode_payload");
    assert_eq!(SnapshotStage::ValidateBase.as_str(), "validate_base");
    assert_eq!(SnapshotStage::ApplyDelta.as_str(), "apply_delta");
    assert_eq!(SnapshotStage::RejectPayload.as_str(), "reject_payload");
}

#[test]
fn test_merge_metric_names_stable() {
    assert_eq!(METRIC_MERGE_DURATION_MS, "raft_snapshot_merge_duration_ms");
    assert_eq!(METRIC_MERGE_SUCCESS_TOTAL, "raft_snapshot_merge_success_total");
    assert_eq!(METRIC_MERGE_FAILED_TOTAL, "raft_snapshot_merge_failed_total");
    assert_eq!(METRIC_CHECKPOINT_SIZE_BYTES, "raft_snapshot_checkpoint_size_bytes");
}

#[test]
fn test_app_metrics_creation() {
    let metrics = AppMetrics::new(1);
    metrics.raft.record_current_term(1);
    metrics.storage.record_keys_total(100);
    metrics.api.record_health_check(1);
}

#[test]
fn test_raft_metrics_creation() {
    let metrics = RaftMetrics::new(1);
    metrics.record_current_term(5);
    metrics.record_state("Leader");
    metrics.record_commit_index(100);
    metrics.record_applied_index(100);
}

#[test]
fn test_storage_metrics_creation() {
    let metrics = StorageMetrics::new(1);
    metrics.record_keys_total(100);
    metrics.record_size_bytes(1024 * 1024);
    metrics.record_read(true);
    metrics.record_write(true);
    metrics.record_snapshot_created();
}
