//! Raft consensus metrics.

use vstd::prelude::*;
use crate::metrics::{bool_text, bool_to_string, label, label_views, labels1, labels2, labels3, sample, samples1, sample_spec, sample_views, MetricKind, MetricSample, SampleView};
use crate::text::{decimal, u64_to_decimal};

verus! {

/// Raft metrics recorder of one node.
#[derive(Debug, Clone)]
pub struct RaftMetrics {
    node_id: u64,
}

/// The `node_id` label of a numeric node.
pub open spec fn node_pair(node: u64) -> (Seq<char>, Seq<char>) {
    ("node_id"@, decimal(node as nat))
}

/// A single sample labelled with the node only.
pub open spec fn node_sample(kind: MetricKind, name: Seq<char>, node: u64, value: u64) -> Seq<SampleView> {
    seq![sample_spec(kind, name, seq![node_pair(node)], value)]
}

/// The `status` label of an AppendEntries outcome.
pub open spec fn append_status(success: bool) -> Seq<char> {
    if success { "success"@ } else { "failure"@ }
}

impl RaftMetrics {
    pub closed spec fn node(&self) -> u64 {
        self.node_id
    }

    pub fn new(node_id: u64) -> (m: Self)
        ensures
            m.node() == node_id,
    {
        RaftMetrics { node_id }
    }

    fn node_labels(&self) -> (l: Vec<(String, String)>)
        ensures
            label_views(l@) == seq![node_pair(self.node())],
    {
        proof { reveal_strlit("node_id"); }
        labels1(label("node_id", u64_to_decimal(self.node_id)))
    }

    fn node_gauge(&self, name: &str, value: u64) -> (r: Vec<MetricSample>)
        ensures
            sample_views(r@) == node_sample(MetricKind::Gauge, name@, self.node(), value),
    {
        samples1(sample(MetricKind::Gauge, name, self.node_labels(), value))
    }

    /// Current term gauge.
    pub fn record_current_term(&self, term: u64) -> (r: Vec<MetricSample>)
        ensures
            sample_views(r@) == node_sample(MetricKind::Gauge, "raft_current_term"@, self.node(), term),
    {
        self.node_gauge("raft_current_term", term)
    }

    /// Role gauge: the series labelled with `state` is set to 1.
    pub fn record_state(&self, state: &str) -> (r: Vec<MetricSample>)
        ensures
            sample_views(r@) == seq![sample_spec(MetricKind::Gauge, "raft_state"@, seq![node_pair(self.node()), ("state"@, state@)], 1)],
    {
        proof {
            reveal_strlit("node_id");
            reveal_strlit("state");
        }
        let labels = labels2(label("node_id", u64_to_decimal(self.node_id)), label("state", state.to_owned()));
        samples1(sample(MetricKind::Gauge, "raft_state", labels, 1))
    }

    /// Commit index gauge.
    pub fn record_commit_index(&self, index: u64) -> (r: Vec<MetricSample>)
        ensures
            sample_views(r@) == node_sample(MetricKind::Gauge, "raft_commit_index"@, self.node(), index),
    {
        self.node_gauge("raft_commit_index", index)
    }

    /// Applied index gauge.
    pub fn record_applied_index(&self, index: u64) -> (r: Vec<MetricSample>)
        ensures
            sample_views(r@) == node_sample(MetricKind::Gauge, "raft_applied_index"@, self.node(), index),
    {
        self.node_gauge("raft_applied_index", index)
    }

    /// Log length gauge.
    pub fn record_log_length(&self, length: u64) -> (r: Vec<MetricSample>)
        ensures
            sample_views(r@) == node_sample(MetricKind::Gauge, "raft_log_length"@, self.node(), length),
    {
        self.node_gauge("raft_log_length", length)
    }

    /// Election latency histogram, in milliseconds.
    pub fn record_election_latency_ms(&self, latency_ms: u64) -> (r: Vec<MetricSample>)
        ensures
            sample_views(r@) == node_sample(MetricKind::Histogram, "raft_election_latency_ms"@, self.node(), latency_ms),
    {
        samples1(sample(MetricKind::Histogram, "raft_election_latency_ms", self.node_labels(), latency_ms))
    }

    /// Replication latency histogram towards `peer`, in milliseconds.
    pub fn record_replication_latency_ms(&self, latency_ms: u64, peer: u64) -> (r: Vec<MetricSample>)
        ensures
            sample_views(r@) == seq![sample_spec(MetricKind::Histogram, "raft_replication_latency_ms"@,
                seq![node_pair(self.node()), ("peer"@, decimal(peer as nat))], latency_ms)],
    {
        proof {
            reveal_strlit("node_id");
            reveal_strlit("peer");
        }
        let labels = labels2(label("node_id", u64_to_decimal(self.node_id)), label("peer", u64_to_decimal(peer)));
        samples1(sample(MetricKind::Histogram, "raft_replication_latency_ms", labels, latency_ms))
    }

    fn append_entries(&self, peer: u64, success: bool) -> (r: Vec<MetricSample>)
        ensures
            sample_views(r@) == seq![sample_spec(MetricKind::Counter, "raft_append_entries_total"@,
                seq![node_pair(self.node()), ("peer"@, decimal(peer as nat)), ("status"@, append_status(success))], 1)],
    {
        proof {
            reveal_strlit("node_id");
            reveal_strlit("peer");
            reveal_strlit("status");
            reveal_strlit("success");
            reveal_strlit("failure");
        }
        let status = if success { String::from_str("success") } else { String::from_str("failure") };
        let labels = labels3(label("node_id", u64_to_decimal(self.node_id)), label("peer", u64_to_decimal(peer)), label("status", status));
        samples1(sample(MetricKind::Counter, "raft_append_entries_total", labels, 1))
    }

    /// Counts one successful AppendEntries RPC to `peer`.
    pub fn record_append_entries_success(&self, peer: u64) -> (r: Vec<MetricSample>)
        ensures
            sample_views(r@) == seq![sample_spec(MetricKind::Counter, "raft_append_entries_total"@,
                seq![node_pair(self.node()), ("peer"@, decimal(peer as nat)), ("status"@, "success"@)], 1)],
    {
        self.append_entries(peer, true)
    }

    /// Counts one failed AppendEntries RPC to `peer`.
    pub fn record_append_entries_failure(&self, peer: u64) -> (r: Vec<MetricSample>)
        ensures
            sample_views(r@) == seq![sample_spec(MetricKind::Counter, "raft_append_entries_total"@,
                seq![node_pair(self.node()), ("peer"@, decimal(peer as nat)), ("status"@, "failure"@)], 1)],
    {
        self.append_entries(peer, false)
    }

    /// Counts one RequestVote RPC, labelled by whether it was granted.
    pub fn record_vote_request(&self, granted: bool) -> (r: Vec<MetricSample>)
        ensures
            sample_views(r@) == seq![sample_spec(MetricKind::Counter, "raft_vote_requests_total"@,
                seq![node_pair(self.node()), ("granted"@, bool_text(granted))], 1)],
    {
        proof {
            reveal_strlit("node_id");
            reveal_strlit("granted");
        }
        let labels = labels2(label("node_id", u64_to_decimal(self.node_id)), label("granted", bool_to_string(granted)));
        samples1(sample(MetricKind::Counter, "raft_vote_requests_total", labels, 1))
    }
}

} // verus!
