//! Storage metrics.

use vstd::prelude::*;
use crate::metrics::{label, label_views, labels1, labels2, sample, samples1, sample_spec, sample_views, MetricKind, MetricSample, SampleView};
use crate::metrics::raft::{node_pair, node_sample};
use crate::text::u64_to_decimal;

verus! {

/// Storage metrics recorder of one node.
#[derive(Debug, Clone)]
pub struct StorageMetrics {
    node_id: u64,
}

/// The `status` label of a storage operation.
pub open spec fn op_status(success: bool) -> Seq<char> {
    if success { "success"@ } else { "failed"@ }
}

/// One counter sample labelled with the node and the operation's status.
pub open spec fn op_sample(name: Seq<char>, node: u64, success: bool) -> Seq<SampleView> {
    seq![sample_spec(MetricKind::Counter, name, seq![node_pair(node), ("status"@, op_status(success))], 1)]
}

impl StorageMetrics {
    pub closed spec fn node(&self) -> u64 {
        self.node_id
    }

    pub fn new(node_id: u64) -> (m: Self)
        ensures
            m.node() == node_id,
    {
        StorageMetrics { node_id }
    }

    fn node_labels(&self) -> (l: Vec<(String, String)>)
        ensures
            label_views(l@) == seq![node_pair(self.node())],
    {
        proof { reveal_strlit("node_id"); }
        labels1(label("node_id", u64_to_decimal(self.node_id)))
    }

    fn op(&self, name: &str, success: bool) -> (r: Vec<MetricSample>)
        ensures
            sample_views(r@) == op_sample(name@, self.node(), success),
    {
        proof {
            reveal_strlit("node_id");
            reveal_strlit("status");
            reveal_strlit("success");
            reveal_strlit("failed");
        }
        let status = if success { String::from_str("success") } else { String::from_str("failed") };
        let labels = labels2(label("node_id", u64_to_decimal(self.node_id)), label("status", status));
        samples1(sample(MetricKind::Counter, name, labels, 1))
    }

    /// Number of keys gauge.
    pub fn record_keys_total(&self, count: u64) -> (r: Vec<MetricSample>)
        ensures
            sample_views(r@) == node_sample(MetricKind::Gauge, "storage_keys_total"@, self.node(), count),
    {
        samples1(sample(MetricKind::Gauge, "storage_keys_total", self.node_labels(), count))
    }

    /// Storage size gauge, in bytes.
    pub fn record_size_bytes(&self, size: u64) -> (r: Vec<MetricSample>)
        ensures
            sample_views(r@) == node_sample(MetricKind::Gauge, "storage_size_bytes"@, self.node(), size),
    {
        samples1(sample(MetricKind::Gauge, "storage_size_bytes", self.node_labels(), size))
    }

    /// Counts one read.
    pub fn record_read(&self, success: bool) -> (r: Vec<MetricSample>)
        ensures
            sample_views(r@) == op_sample("storage_reads_total"@, self.node(), success),
    {
        self.op("storage_reads_total", success)
    }

    /// Counts one write.
    pub fn record_write(&self, success: bool) -> (r: Vec<MetricSample>)
        ensures
            sample_views(r@) == op_sample("storage_writes_total"@, self.node(), success),
    {
        self.op("storage_writes_total", success)
    }

    /// Counts one delete.
    pub fn record_delete(&self, success: bool) -> (r: Vec<MetricSample>)
        ensures
            sample_views(r@) == op_sample("storage_deletes_total"@, self.node(), success),
    {
        self.op("storage_deletes_total", success)
    }

    /// Counts one snapshot built.
    pub fn record_snapshot_created(&self) -> (r: Vec<MetricSample>)
        ensures
            sample_views(r@) == node_sample(MetricKind::Counter, "storage_snapshots_created_total"@, self.node(), 1),
    {
        samples1(sample(MetricKind::Counter, "storage_snapshots_created_total", self.node_labels(), 1))
    }

    /// Counts one snapshot installed.
    pub fn record_snapshot_restored(&self) -> (r: Vec<MetricSample>)
        ensures
            sample_views(r@) == node_sample(MetricKind::Counter, "storage_snapshots_restored_total"@, self.node(), 1),
    {
        samples1(sample(MetricKind::Counter, "storage_snapshots_restored_total", self.node_labels(), 1))
    }

    /// Number of log entries gauge.
    pub fn record_log_entries(&self, count: u64) -> (r: Vec<MetricSample>)
        ensures
            sample_views(r@) == node_sample(MetricKind::Gauge, "storage_log_entries"@, self.node(), count),
    {
        samples1(sample(MetricKind::Gauge, "storage_log_entries", self.node_labels(), count))
    }
}

} // verus!
