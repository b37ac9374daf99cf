use std::collections::HashMap;

use raftkv::clock::now_secs;
use raftkv::network::client::{ClientSource, ConnectionPool, StaticAddressResolver};
use raftkv::network::GrpcRaftNetworkFactory;
use raftkv::raft_adapter::RaftConfig;
use raftkv::snapshot::builder::{should_build_delta, DELTA_ENTRY_THRESHOLD, DELTA_MAX_BYTES};
use raftkv::snapshot::compression::SnapshotCompressor;
use raftkv::state::{AppliedState, CheckpointMetadata as PersistedCheckpointMetadata, DeltaInfo, MetadataManager, SnapshotMetaState, VotingState};
use raftkv::storage::LogEntry;
use raftkv::types::{DeltaEntry, DeltaMetadata, KVRequest, KVResponse, SnapshotFormat};

#[test]
fn test_network_factory_creation() {
    let resolver = StaticAddressResolver::new(HashMap::new());
    let _factory = GrpcRaftNetworkFactory::new(resolver);
}

#[test]
fn test_default_raft_config() {
    let config = RaftConfig::default();
    assert_eq!(config.election_timeout_ms, 150);
    assert_eq!(config.heartbeat_interval_ms, 50);
}

#[test]
fn test_custom_raft_config() {
    let config = RaftConfig { election_timeout_ms: 300, heartbeat_interval_ms: 100 };
    assert_eq!(config.election_timeout_ms, 300);
    assert_eq!(config.heartbeat_interval_ms, 100);
}

#[test]
fn test_should_build_delta_5mb_threshold() {
    let mut snapshot_state = SnapshotMetaState::new();
    snapshot_state.last_checkpoint = Some(PersistedCheckpointMetadata::new(1, 1, 0, now_secs()));

    assert!(should_build_delta(&snapshot_state, DELTA_ENTRY_THRESHOLD, DELTA_MAX_BYTES - 1, now_secs()));

    assert!(!should_build_delta(&snapshot_state, DELTA_ENTRY_THRESHOLD, DELTA_MAX_BYTES + 1, now_secs()));
}

#[test]
fn test_compressor_creation() {
    let compressor = SnapshotCompressor::new();
    assert_eq!(compressor.zstd_level, 10);
}

#[test]
fn test_compressor_custom_level() {
    let compressor = SnapshotCompressor::new().with_level(15);
    assert_eq!(compressor.zstd_level, 15);
}

#[test]
fn test_voting_state_new() {
    let state = VotingState::new();
    assert_eq!(state.current_term, 0);
    assert_eq!(state.voted_for, None);
}

#[test]
fn test_applied_state_new() {
    let state = AppliedState::new();
    assert_eq!(state.last_applied_index, 0);
    assert_eq!(state.last_applied_term, 0);
}

#[test]
fn test_checkpoint_metadata_new() {
    let meta = PersistedCheckpointMetadata::new(100, 5, 12345, 1234567890);
    assert_eq!(meta.checkpoint_index, 100);
    assert_eq!(meta.checkpoint_term, 5);
    assert_eq!(meta.sequence_number, 12345);
    assert_eq!(meta.created_at, 1234567890);
}

#[test]
fn test_delta_info_new() {
    let info = DeltaInfo::new(100, 150, 5000, 1234567890);
    assert_eq!(info.start_index, 100);
    assert_eq!(info.end_index, 150);
    assert_eq!(info.size_bytes, 5000);
    assert_eq!(info.created_at, 1234567890);
}

#[test]
fn test_snapshot_meta_state_should_merge_by_chain() {
    let mut state = SnapshotMetaState::new();
    for i in 0..5 {
        state.delta_chain.push(DeltaInfo::new(i * 100, (i + 1) * 100, 1000, 0));
    }
    assert!(state.should_merge());
}

#[test]
fn test_snapshot_meta_state_should_merge_by_size() {
    let mut state = SnapshotMetaState::new();
    state.delta_chain.push(DeltaInfo::new(0, 100, 1000, 0));
    state.total_delta_bytes = 300 * 1024 * 1024;
    assert!(state.should_merge());
}

#[test]
fn test_snapshot_meta_state_no_merge() {
    let state = SnapshotMetaState::new();
    assert!(!state.should_merge());
}

#[test]
fn test_log_entry_storage_key() {
    let key = LogEntry::storage_key(5, 100);
    assert_eq!(key, b"raft_log:5:100".to_vec());
}

#[test]
fn test_kv_request_set() {
    let req = KVRequest::Put { key: "test".to_string(), value: vec![1, 2, 3] };
    assert_eq!(req.to_string(), "Set { key: \"test\", value: [1, 2, 3] }");
}

#[test]
fn test_kv_response_ok() {
    let resp = KVResponse::Success;
    assert_eq!(resp.to_string(), "Ok");
}

#[test]
fn test_kv_response_err() {
    let resp = KVResponse::Failure("test error".to_string());
    assert_eq!(resp.to_string(), "Err: test error");
}

#[test]
fn test_delta_entry_creation() {
    let e = DeltaEntry::new(2, 9, vec![1, 2, 3]);
    assert_eq!(e.term, 2);
    assert_eq!(e.index, 9);
    assert_eq!(e.payload, vec![1, 2, 3]);
}

#[test]
fn test_delta_metadata_builder() {
    let meta = DeltaMetadata::new(SnapshotFormat::Delta { base_index: 10, entry_count: 1 }, 1024, 123)
        .with_file_path("/tmp/delta.zst".to_string());

    assert_eq!(meta.size_bytes, 1024);
    assert_eq!(meta.version, 2);
    assert_eq!(meta.file_path.as_deref(), Some("/tmp/delta.zst"));
}

#[test]
fn metadata_manager_saves_and_returns_each_record() {
    let mut m = MetadataManager::new();
    assert_eq!(m.get_voting_state(), VotingState::new());
    m.save_voting_state(VotingState { current_term: 7, voted_for: Some(3) });
    m.save_applied_state(AppliedState { last_applied_index: 42, last_applied_term: 7 });
    let mut snap = SnapshotMetaState::new();
    snap.last_checkpoint = Some(PersistedCheckpointMetadata::new(40, 7, 99, 1000).with_checkpoint_path("/data/cp".to_string()));
    snap.delta_chain.push(DeltaInfo::new(41, 42, 512, 1001).with_file_path("/data/d1".to_string()));
    snap.total_delta_bytes = 512;
    m.save_snapshot_state(snap);

    assert_eq!(m.get_voting_state(), VotingState { current_term: 7, voted_for: Some(3) });
    assert_eq!(m.get_applied_state(), AppliedState { last_applied_index: 42, last_applied_term: 7 });
    let got = m.get_snapshot_state();
    let cp = got.last_checkpoint.unwrap();
    assert_eq!(cp.checkpoint_index, 40);
    assert_eq!(cp.checkpoint_path, Some("/data/cp".to_string()));
    assert_eq!(got.delta_chain.len(), 1);
    assert_eq!(got.delta_chain[0].file_path, Some("/data/d1".to_string()));
    assert_eq!(got.total_delta_bytes, 512);
    // Saving one record leaves the others as they were.
    m.save_voting_state(VotingState { current_term: 8, voted_for: None });
    assert_eq!(m.get_applied_state().last_applied_index, 42);
}

#[test]
fn connection_pool_caches_until_removed() {
    let mut addrs = HashMap::new();
    addrs.insert(2u64, "10.0.0.2:9000".to_string());
    let mut pool: ConnectionPool<StaticAddressResolver, u32> = ConnectionPool::new(StaticAddressResolver::new(addrs));
    assert_eq!(pool.client_count(), 0);
    assert_eq!(pool.config().max_retries, 2);
    match pool.get_client(2) {
        Ok(ClientSource::Connect(a)) => assert_eq!(a, "10.0.0.2:9000"),
        _ => panic!("expected a new connection"),
    }
    assert!(pool.get_client(9).is_err());
    pool.insert_client(2, 77);
    assert_eq!(pool.client_count(), 1);
    match pool.get_client(2) {
        Ok(ClientSource::Cached(c)) => assert_eq!(*c, 77),
        _ => panic!("expected the cached client"),
    }
    pool.remove_client(2);
    assert_eq!(pool.client_count(), 0);
    assert!(matches!(pool.get_client(2), Ok(ClientSource::Connect(_))));
}

#[test]
fn state_defaults_equal_new() {
    assert_eq!(VotingState::default(), VotingState::new());
    assert_eq!(AppliedState::default(), AppliedState::new());
    let s = SnapshotMetaState::default();
    assert!(s.last_checkpoint.is_none() && s.delta_chain.is_empty() && s.total_delta_bytes == 0);
}
