//! Service configuration: the settings of a node and of its cluster, their
//! defaults, command-line overrides, validation, and the address maps the
//! cluster is bootstrapped and reached with.

use vstd::prelude::*;
use std::collections::{BTreeMap, HashMap};
use crate::text::{all_whitespace, decimal, is_blank, push_decimal, str_equal};
use crate::merge::policy::DeltaMergePolicy;

verus! {

/// Node identity and storage location.
#[derive(Debug, Clone)]
pub struct NodeConfig {
    /// Node id (1, 2, 3, ...).
    pub node_id: u64,
    /// gRPC listen address.
    pub listen_addr: String,
    /// Data directory.
    pub data_dir: String,
}

/// HTTP API settings.
#[derive(Debug, Clone)]
pub struct HttpConfig {
    pub enabled: bool,
    pub port: u16,
}

/// Raft timing settings.
#[derive(Debug, Clone)]
pub struct RaftConfig {
    pub heartbeat_interval_ms: u64,
    pub election_timeout_ms: u64,
    /// Largest number of log entries per replication payload.
    pub max_payload_entries: u64,
}

/// Snapshot settings.
#[derive(Debug, Clone)]
pub struct SnapshotConfig {
    pub checkpoint_interval_secs: u64,
    pub max_delta_chain: usize,
    /// Largest cumulative delta size, in MiB.
    pub max_delta_bytes_mb: u64,
}

/// Storage engine settings.
#[derive(Debug, Clone)]
pub struct StorageConfig {
    pub enable_compression: bool,
    pub flush_interval_ms: u64,
}

/// Logging settings.
#[derive(Debug, Clone)]
pub struct LoggingConfig {
    /// `trace`, `debug`, `info`, `warn` or `error`.
    pub level: String,
    /// `json` or `text`.
    pub format: String,
}

/// Metrics export settings.
#[derive(Debug, Clone)]
pub struct MetricsConfig {
    pub enabled: bool,
    pub listen_addr: String,
}

/// A known peer of the cluster.
#[derive(Debug, Clone)]
pub struct PeerConfig {
    pub node_id: u64,
    pub addr: String,
}

/// Cluster bootstrap settings.
#[derive(Debug, Clone)]
pub struct ClusterConfig {
    /// Whether this node initializes the cluster.
    pub bootstrap: bool,
    /// Expected number of voters (this node and its peers).
    pub expected_voters: Option<usize>,
    /// Known peers, excluding this node.
    pub peers: Vec<PeerConfig>,
}

impl Default for ClusterConfig {
    /// No bootstrap, no expectation, no peers.
    fn default() -> (c: Self)
        ensures
            !c.bootstrap,
            c.expected_voters is None,
            c.peers@.len() == 0,
    {
        ClusterConfig { bootstrap: false, expected_voters: None, peers: Vec::new() }
    }
}

/// Configuration of the service.
#[derive(Debug, Clone)]
pub struct Config {
    pub node: NodeConfig,
    pub http: HttpConfig,
    pub raft: RaftConfig,
    pub cluster: ClusterConfig,
    pub snapshot: SnapshotConfig,
    pub storage: StorageConfig,
    pub logging: LoggingConfig,
    pub metrics: MetricsConfig,
}

impl Default for Config {
    /// Node 1 on `127.0.0.1:50051` with data in `./data/node_1`; HTTP on
    /// port 8080; heartbeat 500 ms, election timeout 3000 ms, 300 entries
    /// per payload; no cluster peers; checkpoints hourly, at most 5 deltas
    /// or 300 MiB; compression on, flush every second; `info` text logs;
    /// metrics on `0.0.0.0:9090`.
    fn default() -> (c: Self)
        ensures
            c.node.node_id == 1,
            c.node.listen_addr@ == "127.0.0.1:50051"@,
            c.node.data_dir@ == "./data/node_1"@,
            c.http.enabled && c.http.port == 8080,
            c.raft.heartbeat_interval_ms == 500,
            c.raft.election_timeout_ms == 3000,
            c.raft.max_payload_entries == 300,
            !c.cluster.bootstrap && c.cluster.expected_voters is None && c.cluster.peers@.len() == 0,
            c.snapshot.checkpoint_interval_secs == 3600,
            c.snapshot.max_delta_chain == 5,
            c.snapshot.max_delta_bytes_mb == 300,
            c.storage.enable_compression && c.storage.flush_interval_ms == 1000,
            c.logging.level@ == "info"@ && c.logging.format@ == "text"@,
            c.metrics.enabled && c.metrics.listen_addr@ == "0.0.0.0:9090"@,
    {
        Config {
            node: NodeConfig {
                node_id: 1,
                listen_addr: String::from_str("127.0.0.1:50051"),
                data_dir: String::from_str("./data/node_1"),
            },
            http: HttpConfig { enabled: true, port: 8080 },
            raft: RaftConfig { heartbeat_interval_ms: 500, election_timeout_ms: 3000, max_payload_entries: 300 },
            cluster: ClusterConfig::default(),
            snapshot: SnapshotConfig { checkpoint_interval_secs: 3600, max_delta_chain: 5, max_delta_bytes_mb: 300 },
            storage: StorageConfig { enable_compression: true, flush_interval_ms: 1000 },
            logging: LoggingConfig { level: String::from_str("info"), format: String::from_str("text") },
            metrics: MetricsConfig { enabled: true, listen_addr: String::from_str("0.0.0.0:9090") },
        }
    }
}

/// Command-line overrides (each also settable from the environment).
#[derive(Debug, Clone)]
pub struct CliArgs {
    /// Configuration file.
    pub config: Option<String>,
    pub node_id: Option<u64>,
    pub listen_addr: Option<String>,
    pub data_dir: Option<String>,
    pub http_port: Option<u16>,
    pub log_level: Option<String>,
}

/// The problem with peer `i` given the peers before it, if any (checks in
/// order: id, address, clash with this node, duplicates).
pub open spec fn peer_problem(c: Config, i: int) -> Option<Seq<char>> {
    let peers = c.cluster.peers@;
    let p = peers[i];
    if p.node_id == 0 {
        Some("cluster.peers.node_id must be greater than 0"@)
    } else if all_whitespace(p.addr@) {
        Some("cluster.peers.addr cannot be empty"@)
    } else if p.node_id == c.node.node_id {
        Some("cluster.peers must not include current node_id"@)
    } else if p.addr@ == c.node.listen_addr@ {
        Some("cluster.peers must not reuse current node listen_addr"@)
    } else if exists|j: int| 0 <= j < i && #[trigger] peers[j].node_id == p.node_id {
        Some("cluster.peers contains duplicate node_id: "@ + decimal(p.node_id as nat))
    } else if exists|j: int| 0 <= j < i && #[trigger] peers[j].addr@ == p.addr@ {
        Some("cluster.peers contains duplicate addr: "@ + p.addr@)
    } else {
        None
    }
}

/// The problem with the first `n` peers: that of the first faulty one.
pub open spec fn peers_problem(c: Config, n: int) -> Option<Seq<char>>
    decreases n,
{
    if n <= 0 {
        None
    } else {
        match peers_problem(c, n - 1) {
            Some(m) => Some(m),
            None => peer_problem(c, n - 1),
        }
    }
}

/// The first problem of a configuration, in the order the checks are made,
/// or `None` when it is valid.
pub open spec fn config_problem(c: Config) -> Option<Seq<char>> {
    if c.node.node_id == 0 {
        Some("node_id must be greater than 0"@)
    } else if c.node.listen_addr@.len() == 0 {
        Some("listen_addr cannot be empty"@)
    } else if c.raft.heartbeat_interval_ms >= c.raft.election_timeout_ms {
        Some("heartbeat_interval_ms must be less than election_timeout_ms"@)
    } else if c.http.enabled && c.http.port == 0 {
        Some("HTTP port cannot be 0 when HTTP is enabled"@)
    } else if peers_problem(c, c.cluster.peers@.len() as int) is Some {
        peers_problem(c, c.cluster.peers@.len() as int)
    } else {
        match c.cluster.expected_voters {
            Some(e) => if e == 0 {
                Some("cluster.expected_voters must be greater than 0"@)
            } else if e != 1 + c.cluster.peers@.len() {
                Some("cluster.expected_voters mismatch: expected="@ + decimal(e as nat) + ", actual="@
                    + decimal((1 + c.cluster.peers@.len()) as nat) + " (self + peers)"@)
            } else {
                None
            },
            None => None,
        }
    }
}

/// The address of every member: this node and its peers, a later peer
/// overriding an earlier entry with the same id.
pub open spec fn member_addrs(self_id: u64, self_addr: Seq<char>, peers: Seq<PeerConfig>) -> Map<u64, Seq<char>>
    decreases peers.len(),
{
    if peers.len() == 0 {
        Map::empty().insert(self_id, self_addr)
    } else {
        member_addrs(self_id, self_addr, peers.drop_last()).insert(peers.last().node_id, peers.last().addr@)
    }
}

impl Config {
    fn peer_problem_exec(&self, i: usize) -> (r: Option<String>)
        requires
            i < self.cluster.peers@.len(),
        ensures
            match r {
                Some(m) => peer_problem(*self, i as int) == Some(m@),
                None => peer_problem(*self, i as int) is None,
            },
    {
        let peers = &self.cluster.peers;
        let p = &peers[i];
        if p.node_id == 0 {
            return Some(String::from_str("cluster.peers.node_id must be greater than 0"));
        }
        if is_blank(p.addr.as_str()) {
            return Some(String::from_str("cluster.peers.addr cannot be empty"));
        }
        if p.node_id == self.node.node_id {
            return Some(String::from_str("cluster.peers must not include current node_id"));
        }
        if str_equal(p.addr.as_str(), self.node.listen_addr.as_str()) {
            return Some(String::from_str("cluster.peers must not reuse current node listen_addr"));
        }
        let mut j: usize = 0;
        while j < i
            invariant
                i < peers@.len(),
                peers@ == self.cluster.peers@,
                *p == peers@[i as int],
                p.node_id != 0,
                !all_whitespace(p.addr@),
                p.node_id != self.node.node_id,
                p.addr@ != self.node.listen_addr@,
                j <= i,
                forall|k: int| 0 <= k < j ==> #[trigger] peers@[k].node_id != peers@[i as int].node_id,
            decreases i - j,
        {
            if peers[j].node_id == p.node_id {
                proof { reveal_strlit("cluster.peers contains duplicate node_id: "); }
                let mut m = String::from_str("cluster.peers contains duplicate node_id: ");
                push_decimal(&mut m, p.node_id);
                assert(peers@[j as int].node_id == p.node_id);
                return Some(m);
            }
            j = j + 1;
        }
        let mut j: usize = 0;
        while j < i
            invariant
                i < peers@.len(),
                peers@ == self.cluster.peers@,
                *p == peers@[i as int],
                p.node_id != 0,
                !all_whitespace(p.addr@),
                p.node_id != self.node.node_id,
                p.addr@ != self.node.listen_addr@,
                forall|k: int| 0 <= k < i ==> #[trigger] peers@[k].node_id != peers@[i as int].node_id,
                j <= i,
                forall|k: int| 0 <= k < j ==> #[trigger] peers@[k].addr@ != peers@[i as int].addr@,
            decreases i - j,
        {
            if str_equal(peers[j].addr.as_str(), p.addr.as_str()) {
                proof { reveal_strlit("cluster.peers contains duplicate addr: "); }
                let mut m = String::from_str("cluster.peers contains duplicate addr: ");
                m.append(p.addr.as_str());
                assert(peers@[j as int].addr@ == p.addr@);
                assert(!(exists|k: int| 0 <= k < i && #[trigger] peers@[k].node_id == p.node_id));
                return Some(m);
            }
            j = j + 1;
        }
        None
    }

    /// Checks the configuration; the error is the message of the first
    /// problem found (see [`config_problem`]).
    pub fn validate(&self) -> (r: Result<(), String>)
        requires
            self.cluster.peers@.len() < usize::MAX,
        ensures
            match r {
                Ok(_) => config_problem(*self) is None,
                Err(m) => config_problem(*self) == Some(m@),
            },
    {
        if self.node.node_id == 0 {
            return Err(String::from_str("node_id must be greater than 0"));
        }
        if self.node.listen_addr.unicode_len() == 0 {
            return Err(String::from_str("listen_addr cannot be empty"));
        }
        if self.raft.heartbeat_interval_ms >= self.raft.election_timeout_ms {
            return Err(String::from_str("heartbeat_interval_ms must be less than election_timeout_ms"));
        }
        if self.http.enabled && self.http.port == 0 {
            return Err(String::from_str("HTTP port cannot be 0 when HTTP is enabled"));
        }
        let n = self.cluster.peers.len();
        let mut i: usize = 0;
        while i < n
            invariant
                n == self.cluster.peers@.len(),
                self.node.node_id != 0,
                self.node.listen_addr@.len() != 0,
                self.raft.heartbeat_interval_ms < self.raft.election_timeout_ms,
                !(self.http.enabled && self.http.port == 0),
                i <= n,
                peers_problem(*self, i as int) is None,
            decreases n - i,
        {
            match self.peer_problem_exec(i) {
                Some(m) => {
                    assert(peers_problem(*self, i + 1) == Some(m@));
                    proof { lemma_peers_problem_sticks(*self, i + 1, n as int); }
                    return Err(m);
                },
                None => {},
            }
            i = i + 1;
        }
        match self.cluster.expected_voters {
            Some(expected) => {
                if expected == 0 {
                    return Err(String::from_str("cluster.expected_voters must be greater than 0"));
                }
                let actual: usize = n + 1;
                if expected != actual {
                    proof {
                        reveal_strlit("cluster.expected_voters mismatch: expected=");
                        reveal_strlit(", actual=");
                        reveal_strlit(" (self + peers)");
                    }
                    let mut m = String::from_str("cluster.expected_voters mismatch: expected=");
                    push_decimal(&mut m, expected as u64);
                    m.append(", actual=");
                    push_decimal(&mut m, actual as u64);
                    m.append(" (self + peers)");
                    return Err(m);
                }
                Ok(())
            },
            None => Ok(()),
        }
    }

    /// Applies the command-line overrides that are given.
    pub fn apply_overrides(&mut self, args: CliArgs)
        ensures
            final(self).node.node_id == match args.node_id { Some(v) => v, None => old(self).node.node_id },
            final(self).node.listen_addr == match args.listen_addr { Some(v) => v, None => old(self).node.listen_addr },
            final(self).node.data_dir == match args.data_dir { Some(v) => v, None => old(self).node.data_dir },
            final(self).http.port == match args.http_port { Some(v) => v, None => old(self).http.port },
            final(self).logging.level == match args.log_level { Some(v) => v, None => old(self).logging.level },
            final(self).http.enabled == old(self).http.enabled,
            final(self).raft == old(self).raft,
            final(self).cluster == old(self).cluster,
            final(self).snapshot == old(self).snapshot,
            final(self).storage == old(self).storage,
            final(self).logging.format == old(self).logging.format,
            final(self).metrics == old(self).metrics,
    {
        if let Some(v) = args.node_id {
            self.node.node_id = v;
        }
        if let Some(v) = args.listen_addr {
            self.node.listen_addr = v;
        }
        if let Some(v) = args.data_dir {
            self.node.data_dir = v;
        }
        if let Some(v) = args.http_port {
            self.http.port = v;
        }
        if let Some(v) = args.log_level {
            self.logging.level = v;
        }
    }

    /// Initial membership: every member's id and address, by id.
    pub fn cluster_members(&self) -> (r: BTreeMap<u64, String>)
        ensures
            r@.dom() == member_addrs(self.node.node_id, self.node.listen_addr@, self.cluster.peers@).dom(),
            forall|k: u64| #[trigger] r@.contains_key(k) ==> r@[k]@ == member_addrs(self.node.node_id, self.node.listen_addr@, self.cluster.peers@)[k],
    {
        broadcast use vstd::std_specs::btree::group_btree_axioms;
        let peers = &self.cluster.peers;
        let mut out: BTreeMap<u64, String> = BTreeMap::new();
        out.insert(self.node.node_id, self.node.listen_addr.clone());
        let mut i: usize = 0;
        assert(peers@.subrange(0, 0) =~= Seq::<PeerConfig>::empty());
        while i < peers.len()
            invariant
                i <= peers@.len(),
                out@.dom() == member_addrs(self.node.node_id, self.node.listen_addr@, peers@.subrange(0, i as int)).dom(),
                forall|k: u64| #[trigger] out@.contains_key(k) ==> out@[k]@ == member_addrs(self.node.node_id, self.node.listen_addr@, peers@.subrange(0, i as int))[k],
            decreases peers@.len() - i,
        {
            proof {
                assert(peers@.subrange(0, i + 1).drop_last() =~= peers@.subrange(0, i as int));
            }
            out.insert(peers[i].node_id, peers[i].addr.clone());
            i = i + 1;
        }
        proof { assert(peers@.subrange(0, peers@.len() as int) =~= peers@); }
        out
    }

    /// Addresses for the network resolver: every member's id and address.
    pub fn resolver_addresses(&self) -> (r: HashMap<u64, String>)
        ensures
            r@.dom() == member_addrs(self.node.node_id, self.node.listen_addr@, self.cluster.peers@).dom(),
            forall|k: u64| #[trigger] r@.contains_key(k) ==> r@[k]@ == member_addrs(self.node.node_id, self.node.listen_addr@, self.cluster.peers@)[k],
    {
        broadcast use vstd::std_specs::hash::group_hash_axioms;
        let peers = &self.cluster.peers;
        let mut out: HashMap<u64, String> = HashMap::new();
        out.insert(self.node.node_id, self.node.listen_addr.clone());
        let mut i: usize = 0;
        assert(peers@.subrange(0, 0) =~= Seq::<PeerConfig>::empty());
        while i < peers.len()
            invariant
                i <= peers@.len(),
                out@.dom() == member_addrs(self.node.node_id, self.node.listen_addr@, peers@.subrange(0, i as int)).dom(),
                forall|k: u64| #[trigger] out@.contains_key(k) ==> out@[k]@ == member_addrs(self.node.node_id, self.node.listen_addr@, peers@.subrange(0, i as int))[k],
            decreases peers@.len() - i,
        {
            proof {
                assert(peers@.subrange(0, i + 1).drop_last() =~= peers@.subrange(0, i as int));
            }
            out.insert(peers[i].node_id, peers[i].addr.clone());
            i = i + 1;
        }
        proof { assert(peers@.subrange(0, peers@.len() as int) =~= peers@); }
        out
    }
}

impl SnapshotConfig {
    /// The merge policy these settings describe (the byte limit given in MiB).
    pub fn merge_policy(&self) -> (p: DeltaMergePolicy)
        requires
            self.max_delta_bytes_mb * 1048576 <= u64::MAX,
        ensures
            p.max_chain_length == self.max_delta_chain,
            p.max_delta_bytes == self.max_delta_bytes_mb * 1048576,
            p.checkpoint_interval_secs == self.checkpoint_interval_secs,
    {
        DeltaMergePolicy {
            max_chain_length: self.max_delta_chain,
            max_delta_bytes: self.max_delta_bytes_mb * 1024 * 1024,
            checkpoint_interval_secs: self.checkpoint_interval_secs,
        }
    }
}

/// Once some peer among the first `m` has a problem, the first `n >= m`
/// peers report that same problem.
proof fn lemma_peers_problem_sticks(c: Config, m: int, n: int)
    requires
        0 < m <= n,
        peers_problem(c, m) is Some,
    ensures
        peers_problem(c, n) == peers_problem(c, m),
    decreases n - m,
{
    if n > m {
        lemma_peers_problem_sticks(c, m, n - 1);
    }
}

proof fn lemma_member_ids(c: Config, n: int)
    requires
        0 <= n <= c.cluster.peers@.len(),
        peers_problem(c, n) is None,
    ensures
        ({
            let m = member_addrs(c.node.node_id, c.node.listen_addr@, c.cluster.peers@.subrange(0, n));
            &&& m.dom().finite()
            &&& m.dom().len() == n + 1
            &&& forall|k: u64| #[trigger] m.dom().contains(k) <==>
                (k == c.node.node_id || exists|j: int| 0 <= j < n && #[trigger] c.cluster.peers@[j].node_id == k)
        }),
    decreases n,
{
    let peers = c.cluster.peers@;
    let m = member_addrs(c.node.node_id, c.node.listen_addr@, peers.subrange(0, n));
    if n == 0 {
        assert(peers.subrange(0, 0) =~= Seq::<PeerConfig>::empty());
        assert(m.dom() =~= Set::<u64>::empty().insert(c.node.node_id));
    } else {
        assert(peers_problem(c, n - 1) is None);
        assert(peer_problem(c, n - 1) is None);
        lemma_member_ids(c, n - 1);
        let prev = peers.subrange(0, n - 1);
        assert(peers.subrange(0, n).drop_last() =~= prev);
        assert(peers.subrange(0, n).last() == peers[n - 1]);
        let pm = member_addrs(c.node.node_id, c.node.listen_addr@, prev);
        let id = peers[n - 1].node_id;
        assert(m == pm.insert(id, peers[n - 1].addr@));
        assert(!pm.dom().contains(id)) by {
            if pm.dom().contains(id) {
                assert(id != c.node.node_id);
                let j = choose|j: int| 0 <= j < n - 1 && #[trigger] peers[j].node_id == id;
                assert(peers[j].node_id == peers[n - 1].node_id);
            }
        }
        assert(m.dom() =~= pm.dom().insert(id));
        assert forall|k: u64| #[trigger] m.dom().contains(k) <==>
            (k == c.node.node_id || exists|j: int| 0 <= j < n && #[trigger] peers[j].node_id == k) by {
            if m.dom().contains(k) && k != c.node.node_id && k != id {
                let j = choose|j: int| 0 <= j < n - 1 && #[trigger] peers[j].node_id == k;
                assert(0 <= j < n && peers[j].node_id == k);
            }
            if k == id {
                assert(peers[n - 1].node_id == k);
            }
            if exists|j: int| 0 <= j < n && #[trigger] peers[j].node_id == k {
                let j = choose|j: int| 0 <= j < n && #[trigger] peers[j].node_id == k;
                if j < n - 1 {
                    assert(pm.dom().contains(k));
                }
            }
        }
    }
}

/// Every validation rule: a positive node id, a non-empty listen address,
/// a heartbeat shorter than the election timeout, a non-zero HTTP port when
/// HTTP is enabled; every peer with a positive id, a non-blank address, and
/// neither this node's id nor its address; peer ids and addresses pairwise
/// distinct; and an expected voter count, when given, of `1 + peers`.
pub open spec fn follows_rules(c: Config) -> bool {
    let peers = c.cluster.peers@;
    &&& c.node.node_id > 0
    &&& c.node.listen_addr@.len() > 0
    &&& c.raft.heartbeat_interval_ms < c.raft.election_timeout_ms
    &&& (c.http.enabled ==> c.http.port != 0)
    &&& forall|i: int| #![trigger peers[i]] 0 <= i < peers.len() ==> {
        &&& peers[i].node_id > 0
        &&& !all_whitespace(peers[i].addr@)
        &&& peers[i].node_id != c.node.node_id
        &&& peers[i].addr@ != c.node.listen_addr@
    }
    &&& forall|i: int, j: int| #![trigger peers[i], peers[j]] 0 <= i < j < peers.len() ==> {
        &&& peers[i].node_id != peers[j].node_id
        &&& peers[i].addr@ != peers[j].addr@
    }
    &&& (c.cluster.expected_voters matches Some(e) ==> e == 1 + peers.len())
}

proof fn lemma_peers_problem_none(c: Config, n: int)
    requires
        0 <= n <= c.cluster.peers@.len(),
    ensures
        (peers_problem(c, n) is None) <==> (forall|i: int| 0 <= i < n ==> #[trigger] peer_problem(c, i) is None),
    decreases n,
{
    if n > 0 {
        lemma_peers_problem_none(c, n - 1);
    }
}

/// Validation succeeds exactly when every rule holds (see [`follows_rules`]).
pub proof fn law_validate_iff_rules(c: Config)
    ensures
        (config_problem(c) is None) <==> follows_rules(c),
{
    let peers = c.cluster.peers@;
    let n = peers.len() as int;
    lemma_peers_problem_none(c, n);
    if forall|i: int| 0 <= i < n ==> #[trigger] peer_problem(c, i) is None {
        assert forall|i: int, j: int| #![trigger peers[i], peers[j]] 0 <= i < j < n implies
            peers[i].node_id != peers[j].node_id && peers[i].addr@ != peers[j].addr@ by {
            assert(peer_problem(c, j) is None);
        }
        assert forall|i: int| #![trigger peers[i]] 0 <= i < n implies {
            &&& peers[i].node_id > 0
            &&& !all_whitespace(peers[i].addr@)
            &&& peers[i].node_id != c.node.node_id
            &&& peers[i].addr@ != c.node.listen_addr@
        } by {
            assert(peer_problem(c, i) is None);
        }
    }
    if follows_rules(c) {
        assert forall|i: int| 0 <= i < n implies #[trigger] peer_problem(c, i) is None by {
            assert(peers[i].node_id > 0);
            assert(!(exists|j: int| 0 <= j < i && #[trigger] peers[j].node_id == peers[i].node_id)) by {
                assert forall|j: int| 0 <= j < i implies #[trigger] peers[j].node_id != peers[i].node_id by {
                    assert(peers[j].node_id != peers[i].node_id && peers[j].addr@ != peers[i].addr@);
                }
            }
            assert(!(exists|j: int| 0 <= j < i && #[trigger] peers[j].addr@ == peers[i].addr@)) by {
                assert forall|j: int| 0 <= j < i implies #[trigger] peers[j].addr@ != peers[i].addr@ by {
                    assert(peers[j].node_id != peers[i].node_id && peers[j].addr@ != peers[i].addr@);
                }
            }
        }
    }
}

/// A valid configuration names each member once: the membership holds this
/// node and every peer, `1 + peers` members in all, and an expected voter
/// count, when given, is that number.
pub proof fn law_valid_config_members(c: Config)
    requires
        config_problem(c) is None,
    ensures
        ({
            let m = member_addrs(c.node.node_id, c.node.listen_addr@, c.cluster.peers@);
            &&& m.dom().finite()
            &&& m.dom().len() == 1 + c.cluster.peers@.len()
            &&& m.dom().contains(c.node.node_id)
            &&& forall|j: int| 0 <= j < c.cluster.peers@.len() ==> m.dom().contains(#[trigger] c.cluster.peers@[j].node_id)
            &&& (c.cluster.expected_voters matches Some(e) ==> e == m.dom().len())
        }),
{
    let n = c.cluster.peers@.len() as int;
    lemma_member_ids(c, n);
    assert(c.cluster.peers@.subrange(0, n) =~= c.cluster.peers@);
    let m = member_addrs(c.node.node_id, c.node.listen_addr@, c.cluster.peers@);
    assert forall|j: int| 0 <= j < n implies m.dom().contains(#[trigger] c.cluster.peers@[j].node_id) by {
        assert(exists|i: int| 0 <= i < n && #[trigger] c.cluster.peers@[i].node_id == c.cluster.peers@[j].node_id);
    }
}

} // verus!
