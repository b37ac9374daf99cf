use std::collections::{BTreeMap, HashMap};

use raftkv::api::{
    delete_request, get_key_response, health_response, put_request, ready_response, status_response, write_response, AppError,
};
use raftkv::config::{CliArgs, Config, PeerConfig};
use raftkv::error::RaftError;
use raftkv::metrics::api::HttpMetrics;
use raftkv::metrics::{record_snapshot_strict_error, render_metrics, MergeMetrics, MetricKind, SnapshotStage};
use raftkv::merge::policy::MergeTrigger;
use raftkv::network::client::{with_scheme, AddressResolver, RpcAttempts, RpcFailure, RpcKind, StaticAddressResolver};
use raftkv::network::GrpcRaftNetworkFactory;
use raftkv::node::{check_initial_members, current_role, is_real_raft, raft_timing, write_after_raft_error};
use raftkv::shutdown::ShutdownSignal;
use raftkv::types::KVRequest;

#[test]
fn validation_messages() {
    let mut c = Config::default();
    c.node.node_id = 0;
    assert_eq!(c.validate().unwrap_err(), "node_id must be greater than 0");
    let mut c = Config::default();
    c.cluster.peers = vec![PeerConfig { node_id: 1, addr: "x".to_string() }];
    assert_eq!(c.validate().unwrap_err(), "cluster.peers must not include current node_id");
    let mut c = Config::default();
    c.cluster.peers = vec![PeerConfig { node_id: 2, addr: "  ".to_string() }];
    assert_eq!(c.validate().unwrap_err(), "cluster.peers.addr cannot be empty");
    let mut c = Config::default();
    c.cluster.peers = vec![PeerConfig { node_id: 2, addr: "a".to_string() }, PeerConfig { node_id: 2, addr: "b".to_string() }];
    assert_eq!(c.validate().unwrap_err(), "cluster.peers contains duplicate node_id: 2");
    let mut c = Config::default();
    c.cluster.peers = vec![PeerConfig { node_id: 2, addr: "a".to_string() }, PeerConfig { node_id: 3, addr: "a".to_string() }];
    assert_eq!(c.validate().unwrap_err(), "cluster.peers contains duplicate addr: a");
    let mut c = Config::default();
    c.cluster.expected_voters = Some(2);
    assert_eq!(c.validate().unwrap_err(), "cluster.expected_voters mismatch: expected=2, actual=1 (self + peers)");
    let mut c = Config::default();
    c.http.port = 0;
    assert_eq!(c.validate().unwrap_err(), "HTTP port cannot be 0 when HTTP is enabled");
    c.http.enabled = false;
    assert!(c.validate().is_ok());
}

#[test]
fn cli_overrides_win() {
    let mut c = Config::default();
    c.apply_overrides(CliArgs {
        config: None,
        node_id: Some(4),
        listen_addr: None,
        data_dir: Some("/d".to_string()),
        http_port: Some(9000),
        log_level: None,
    });
    assert_eq!(c.node.node_id, 4);
    assert_eq!(c.node.listen_addr, "127.0.0.1:50051");
    assert_eq!(c.node.data_dir, "/d");
    assert_eq!(c.http.port, 9000);
    assert_eq!(c.logging.level, "info");
}

#[test]
fn api_answers() {
    let v = get_key_response("k", Some(b"hello".to_vec())).unwrap();
    assert_eq!(v.value, "aGVsbG8=");
    assert_eq!(get_key_response("k", Some(vec![0xfb, 0xff])).unwrap().value, "+/8=");
    assert_eq!(get_key_response("k", Some(b"abcdef".to_vec())).unwrap().value, "YWJjZGVm");
    assert_eq!(get_key_response("k", Some(vec![])).unwrap().value, "");
    match get_key_response("k", None) {
        Err(e) => {
            assert_eq!(e.status_code(), 404);
            assert_eq!(e.into_body().error, "Key 'k' not found");
        }
        Ok(_) => panic!("expected not found"),
    }
    assert_eq!(AppError::Internal("x".to_string()).status_code(), 500);
    assert_eq!(put_request("k", vec![1]), KVRequest::Put { key: "k".to_string(), value: vec![1] });
    assert_eq!(delete_request("k"), KVRequest::Delete { key: "k".to_string() });
    assert_eq!(write_response("k", false).message, "Key 'k' updated successfully");
    assert_eq!(write_response("k", true).message, "Key 'k' deleted successfully");
    let h = health_response(3);
    assert_eq!((h.status.as_str(), h.node_id), ("healthy", 3));
    let r = ready_response(1, Err("boom".to_string()), 2, 3);
    assert!(!r.ready);
    assert_eq!(r.mode, "process+storage");
    assert_eq!(r.details.last_error.as_deref(), Some("boom"));
    assert!(ready_response(1, Ok(()), 2, 3).ready);
    let s = status_response(1, None, 6, 9);
    assert_eq!((s.role.as_str(), s.term, s.applied_index), ("unknown", 6, 9));
    let s = status_response(1, Some(("Leader".to_string(), 8)), 6, 9);
    assert_eq!((s.role.as_str(), s.term), ("Leader", 8));
}

#[test]
fn node_decisions() {
    let t = raft_timing(&Config::default());
    assert_eq!((t.heartbeat_interval, t.election_timeout_min, t.election_timeout_max, t.max_payload_entries), (500, 3000, 3500, 300));
    let empty: BTreeMap<u64, String> = BTreeMap::new();
    assert!(check_initial_members(1, &empty).unwrap_err().contains("cannot be empty"));
    let mut members = BTreeMap::new();
    members.insert(2, "127.0.0.1:50052".to_string());
    assert!(check_initial_members(1, &members).unwrap_err().contains("must include current node"));
    members.insert(1, "127.0.0.1:50051".to_string());
    assert!(check_initial_members(1, &members).is_ok());
    assert!(write_after_raft_error("has to forward request to: Some(2)").is_ok());
    assert!(write_after_raft_error("No LEADER known").is_ok());
    assert_eq!(write_after_raft_error("storage broke").unwrap_err(), "raft client_write failed: storage broke");
    assert_eq!(current_role(None, true), "Standalone");
    assert_eq!(current_role(None, false), "Running");
    assert_eq!(current_role(Some("Leader".to_string()), false), "Leader");
    assert!(is_real_raft(true, false));
    assert!(!is_real_raft(true, true));
}

#[test]
fn network_pieces() {
    let mut addrs = HashMap::new();
    addrs.insert(2u64, "127.0.0.1:50052".to_string());
    let resolver = StaticAddressResolver::new(addrs.clone());
    assert_eq!(resolver.resolve(2).unwrap(), "127.0.0.1:50052");
    match resolver.resolve(9) {
        Err(RaftError::Network(m)) => assert_eq!(m, "No address found for node 9"),
        other => panic!("unexpected {:?}", other),
    }
    let factory = GrpcRaftNetworkFactory::with_static_addresses(addrs);
    assert_eq!(factory.config().max_retries, 2);
    assert_eq!(factory.new_client(2).target, 2);
    assert_eq!(with_scheme("127.0.0.1:1"), "http://127.0.0.1:1");
    assert_eq!(with_scheme("https://h:1"), "https://h:1");

    let mut a = RpcAttempts::new(RpcKind::AppendEntries, 3, 2);
    assert!(a.on_failure(RpcFailure::Timeout).is_none());
    assert!(a.on_failure(RpcFailure::Status("x".to_string())).is_none());
    match a.on_failure(RpcFailure::Status("refused".to_string())) {
        Some(RaftError::Network(m)) => assert_eq!(m, "AppendEntries RPC to node 3 failed after 3 attempts: refused"),
        other => panic!("unexpected {:?}", other),
    }
    let mut v = RpcAttempts::new(RpcKind::RequestVote, 4, 0);
    match v.on_failure(RpcFailure::Timeout) {
        Some(RaftError::Network(m)) => assert_eq!(m, "RequestVote RPC to node 4 timed out after 1 attempts"),
        other => panic!("unexpected {:?}", other),
    }
}

#[test]
fn metric_samples() {
    let http = HttpMetrics::new(1);
    let s = http.record_get_kv(false, 5);
    assert_eq!(s.len(), 2);
    assert_eq!(s[0].kind, MetricKind::Counter);
    assert_eq!(s[0].name, "http_requests_total");
    assert_eq!(
        s[0].labels,
        vec![
            ("node_id".to_string(), "1".to_string()),
            ("method".to_string(), "GET".to_string()),
            ("endpoint".to_string(), "/kv/:key".to_string()),
            ("status".to_string(), "404".to_string()),
        ]
    );
    assert_eq!(s[1].name, "http_request_duration_ms");
    assert_eq!(s[1].value, 5);

    let e = record_snapshot_strict_error("K", SnapshotStage::ValidateBase, 3, 4);
    assert_eq!(e[0].name, "snapshot_strict_error_validate_base_total");
    assert_eq!(e[0].labels[3], ("applied_index".to_string(), "4".to_string()));

    let m = MergeMetrics::new("n1".to_string());
    let f = m.record_merge_failure(MergeTrigger::ChainTooLong, 2, 10, "MERGE_UNKNOWN", 13);
    assert_eq!(f[0].value, 3000);
    assert_eq!(f[1].name, "raft_snapshot_merge_failed_total");
    let expected = vec![
        ("node_id".to_string(), "n1".to_string()),
        ("trigger".to_string(), "chain_length".to_string()),
        ("retries".to_string(), "2".to_string()),
        ("result".to_string(), "failed".to_string()),
        ("error_code".to_string(), "MERGE_UNKNOWN".to_string()),
    ];
    assert_eq!(f[0].labels, expected);
    assert_eq!(f[1].labels, expected);
    assert_eq!(MergeTrigger::SizeTooLarge.as_str(), "delta_bytes");
    assert_eq!(MergeTrigger::TimeWindowExpired.as_str(), "checkpoint_interval");
    let c = m.record_snapshot_chain(4, 3 * 1048576);
    assert_eq!((c[1].value, c[1].divisor), (3 * 1048576, 1048576));
    assert_eq!(render_metrics(None), "# prometheus recorder not initialized\n");
    assert_eq!(render_metrics(Some("x".to_string())), "x");
}

#[test]
fn shutdown_flag() {
    let s = ShutdownSignal::new();
    let t = s.clone();
    assert!(!t.is_shutting_down());
    s.shutdown();
    assert!(t.is_shutting_down());
}
