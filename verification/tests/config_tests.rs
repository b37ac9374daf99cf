use raftkv::config::{Config, PeerConfig};

fn peer(node_id: u64, addr: &str) -> PeerConfig {
    PeerConfig { node_id, addr: addr.to_string() }
}

#[test]
fn test_default_config() {
    let config = Config::default();
    assert_eq!(config.node.node_id, 1);
    assert_eq!(config.http.port, 8080);
    assert!(config.validate().is_ok());
}

#[test]
fn test_validate_node_id_zero() {
    let mut config = Config::default();
    config.node.node_id = 0;
    assert!(config.validate().is_err());
}

#[test]
fn test_validate_heartbeat_interval() {
    let mut config = Config::default();
    config.raft.heartbeat_interval_ms = 5000;
    config.raft.election_timeout_ms = 3000;
    assert!(config.validate().is_err());
}

#[test]
fn test_cluster_members_contains_self() {
    let config = Config::default();
    let members = config.cluster_members();
    assert!(members.contains_key(&config.node.node_id));
}

#[test]
fn test_validate_cluster_duplicate_peer_id() {
    let mut config = Config::default();
    config.cluster.peers = vec![peer(2, "127.0.0.1:50052"), peer(2, "127.0.0.1:50053")];
    assert!(config.validate().is_err());
}

#[test]
fn test_validate_cluster_duplicate_peer_addr() {
    let mut config = Config::default();
    config.cluster.peers = vec![peer(2, "127.0.0.1:50052"), peer(3, "127.0.0.1:50052")];
    assert!(config.validate().is_err());
}

#[test]
fn test_validate_cluster_peer_reuse_self_addr() {
    let mut config = Config::default();
    config.cluster.peers = vec![PeerConfig { node_id: 2, addr: config.node.listen_addr.clone() }];
    assert!(config.validate().is_err());
}

#[test]
fn test_cluster_members_expected_count() {
    let mut config = Config::default();
    config.cluster.bootstrap = true;
    config.cluster.peers = vec![peer(2, "127.0.0.1:50052"), peer(3, "127.0.0.1:50053")];

    let members = config.cluster_members();
    assert_eq!(members.len(), 3);
    assert!(members.contains_key(&1));
    assert!(members.contains_key(&2));
    assert!(members.contains_key(&3));
}

#[test]
fn test_resolver_addresses_mapping() {
    let mut config = Config::default();
    config.cluster.peers = vec![peer(2, "127.0.0.1:50052"), peer(3, "127.0.0.1:50053")];

    let addrs = config.resolver_addresses();
    assert_eq!(addrs.len(), 3);
    assert_eq!(addrs.get(&1).map(String::as_str), Some("127.0.0.1:50051"));
    assert_eq!(addrs.get(&2).map(String::as_str), Some("127.0.0.1:50052"));
    assert_eq!(addrs.get(&3).map(String::as_str), Some("127.0.0.1:50053"));
}

#[test]
fn test_validate_expected_voters_match() {
    let mut config = Config::default();
    config.cluster.peers = vec![peer(2, "127.0.0.1:50052"), peer(3, "127.0.0.1:50053")];
    config.cluster.expected_voters = Some(3);
    assert!(config.validate().is_ok());
}

#[test]
fn test_validate_expected_voters_mismatch() {
    let mut config = Config::default();
    config.cluster.peers = vec![peer(2, "127.0.0.1:50052")];
    config.cluster.expected_voters = Some(3);
    assert!(config.validate().is_err());
}

#[test]
fn test_validate_expected_voters_zero() {
    let mut config = Config::default();
    config.cluster.expected_voters = Some(0);
    assert!(config.validate().is_err());
}

#[test]
fn test_validate_expected_voters_mismatch_even_without_bootstrap() {
    let mut config = Config::default();
    config.cluster.bootstrap = false;
    config.cluster.peers = vec![peer(2, "127.0.0.1:50052")];
    config.cluster.expected_voters = Some(3);
    assert!(config.validate().is_err());
}

#[test]
fn test_raft_config_creation() {
    let config = Config::default();
    let mut raft_config = openraft::Config::default();
    raft_config.heartbeat_interval = config.raft.heartbeat_interval_ms;
    assert_eq!(raft_config.heartbeat_interval, 500);
}
