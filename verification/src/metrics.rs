//! Metric samples.
//!
//! Recording a metric is described here as data: each `record_*` method
//! returns the samples to emit (kind, name, labels, value). The process
//! hands them to the metrics exporter.

pub mod api;
pub mod raft;
pub mod storage;

use vstd::prelude::*;
use crate::merge::policy::{trigger_label, MergeTrigger};
use crate::text::{decimal, u64_to_decimal};

verus! {

/// Kind of a metric.
#[derive(Debug, Clone, Copy, PartialEq, Eq, Structural)]
pub enum MetricKind {
    /// Monotonic counter; the sample value is the increment.
    Counter,
    /// Gauge; the sample value is the new level.
    Gauge,
    /// Histogram; the sample value is one observation.
    Histogram,
}

/// One metric update.
#[derive(Debug, Clone)]
pub struct MetricSample {
    pub kind: MetricKind,
    pub name: String,
    pub labels: Vec<(String, String)>,
    /// Increment, level or observation, before division by `divisor`.
    pub value: u64,
    /// The emitted value is `value / divisor` (1 except for unit changes).
    pub divisor: u64,
}

/// Mathematical form of a [`MetricSample`].
pub ghost struct SampleView {
    pub kind: MetricKind,
    pub name: Seq<char>,
    pub labels: Seq<(Seq<char>, Seq<char>)>,
    pub value: u64,
    pub divisor: u64,
}

/// Views of label pairs.
pub open spec fn label_views(l: Seq<(String, String)>) -> Seq<(Seq<char>, Seq<char>)> {
    l.map_values(|p: (String, String)| (p.0@, p.1@))
}

impl View for MetricSample {
    type V = SampleView;

    open spec fn view(&self) -> SampleView {
        SampleView {
            kind: self.kind,
            name: self.name@,
            labels: label_views(self.labels@),
            value: self.value,
            divisor: self.divisor,
        }
    }
}

/// Views of samples.
pub open spec fn sample_views(s: Seq<MetricSample>) -> Seq<SampleView> {
    s.map_values(|m: MetricSample| m@)
}

/// A sample with unit divisor.
pub open spec fn sample_spec(kind: MetricKind, name: Seq<char>, labels: Seq<(Seq<char>, Seq<char>)>, value: u64) -> SampleView {
    SampleView { kind, name, labels, value, divisor: 1 }
}

/// The `node_id` label.
pub open spec fn node_label(node: Seq<char>) -> (Seq<char>, Seq<char>) {
    ("node_id"@, node)
}

/// Text of a boolean: `true` or `false`.
pub open spec fn bool_text(b: bool) -> Seq<char> {
    if b { "true"@ } else { "false"@ }
}

/// `bool::to_string`.
pub fn bool_to_string(b: bool) -> (s: String)
    ensures
        s@ == bool_text(b),
{
    if b { String::from_str("true") } else { String::from_str("false") }
}

/// Builds a sample with unit divisor.
pub fn sample(kind: MetricKind, name: &str, labels: Vec<(String, String)>, value: u64) -> (s: MetricSample)
    ensures
        s@ == sample_spec(kind, name@, label_views(labels@), value),
{
    MetricSample { kind, name: name.to_owned(), labels, value, divisor: 1 }
}

/// A label pair.
pub fn label(key: &str, value: String) -> (p: (String, String))
    ensures
        p.0@ == key@,
        p.1@ == value@,
{
    (key.to_owned(), value)
}

/// One label.
pub fn labels1(a: (String, String)) -> (l: Vec<(String, String)>)
    ensures
        label_views(l@) == seq![(a.0@, a.1@)],
{
    let l = vec![a];
    assert(label_views(l@) =~= seq![(a.0@, a.1@)]);
    l
}

/// Two labels.
pub fn labels2(a: (String, String), b: (String, String)) -> (l: Vec<(String, String)>)
    ensures
        label_views(l@) == seq![(a.0@, a.1@), (b.0@, b.1@)],
{
    let l = vec![a, b];
    assert(label_views(l@) =~= seq![(a.0@, a.1@), (b.0@, b.1@)]);
    l
}

/// Three labels.
pub fn labels3(a: (String, String), b: (String, String), c: (String, String)) -> (l: Vec<(String, String)>)
    ensures
        label_views(l@) == seq![(a.0@, a.1@), (b.0@, b.1@), (c.0@, c.1@)],
{
    let l = vec![a, b, c];
    assert(label_views(l@) =~= seq![(a.0@, a.1@), (b.0@, b.1@), (c.0@, c.1@)]);
    l
}

/// Four labels.
pub fn labels4(a: (String, String), b: (String, String), c: (String, String), d: (String, String)) -> (l: Vec<(String, String)>)
    ensures
        label_views(l@) == seq![(a.0@, a.1@), (b.0@, b.1@), (c.0@, c.1@), (d.0@, d.1@)],
{
    let l = vec![a, b, c, d];
    assert(label_views(l@) =~= seq![(a.0@, a.1@), (b.0@, b.1@), (c.0@, c.1@), (d.0@, d.1@)]);
    l
}

/// Five labels.
pub fn labels5(a: (String, String), b: (String, String), c: (String, String), d: (String, String), e: (String, String)) -> (l: Vec<(String, String)>)
    ensures
        label_views(l@) == seq![(a.0@, a.1@), (b.0@, b.1@), (c.0@, c.1@), (d.0@, d.1@), (e.0@, e.1@)],
{
    let l = vec![a, b, c, d, e];
    assert(label_views(l@) =~= seq![(a.0@, a.1@), (b.0@, b.1@), (c.0@, c.1@), (d.0@, d.1@), (e.0@, e.1@)]);
    l
}

/// One sample as a list.
pub fn samples1(a: MetricSample) -> (v: Vec<MetricSample>)
    ensures
        sample_views(v@) == seq![a@],
{
    let v = vec![a];
    assert(sample_views(v@) =~= seq![a@]);
    v
}

/// Two samples as a list.
pub fn samples2(a: MetricSample, b: MetricSample) -> (v: Vec<MetricSample>)
    ensures
        sample_views(v@) == seq![a@, b@],
{
    let v = vec![a, b];
    assert(sample_views(v@) =~= seq![a@, b@]);
    v
}

/// Three samples as a list.
pub fn samples3(a: MetricSample, b: MetricSample, c: MetricSample) -> (v: Vec<MetricSample>)
    ensures
        sample_views(v@) == seq![a@, b@, c@],
{
    let v = vec![a, b, c];
    assert(sample_views(v@) =~= seq![a@, b@, c@]);
    v
}

/// Stages at which a strict snapshot error can arise.
#[derive(Debug, Clone, Copy, PartialEq, Eq, Structural)]
pub enum SnapshotStage {
    DecodePayload,
    ValidateBase,
    ApplyDelta,
    RejectPayload,
}

/// Stable label of a stage.
pub open spec fn stage_label(s: SnapshotStage) -> Seq<char> {
    match s {
        SnapshotStage::DecodePayload => "decode_payload"@,
        SnapshotStage::ValidateBase => "validate_base"@,
        SnapshotStage::ApplyDelta => "apply_delta"@,
        SnapshotStage::RejectPayload => "reject_payload"@,
    }
}

/// Counter name of strict errors at a stage.
pub open spec fn stage_metric_name(s: SnapshotStage) -> Seq<char> {
    match s {
        SnapshotStage::DecodePayload => "snapshot_strict_error_decode_payload_total"@,
        SnapshotStage::ValidateBase => "snapshot_strict_error_validate_base_total"@,
        SnapshotStage::ApplyDelta => "snapshot_strict_error_apply_delta_total"@,
        SnapshotStage::RejectPayload => "snapshot_strict_error_reject_payload_total"@,
    }
}

impl SnapshotStage {
    /// Stable label used in logs and metrics.
    pub fn as_str(self) -> (s: &'static str)
        ensures
            s@ == stage_label(self),
    {
        match self {
            SnapshotStage::DecodePayload => "decode_payload",
            SnapshotStage::ValidateBase => "validate_base",
            SnapshotStage::ApplyDelta => "apply_delta",
            SnapshotStage::RejectPayload => "reject_payload",
        }
    }

    /// Name of the counter of strict errors at this stage.
    pub fn strict_error_metric_name(self) -> (s: &'static str)
        ensures
            s@ == stage_metric_name(self),
    {
        match self {
            SnapshotStage::DecodePayload => "snapshot_strict_error_decode_payload_total",
            SnapshotStage::ValidateBase => "snapshot_strict_error_validate_base_total",
            SnapshotStage::ApplyDelta => "snapshot_strict_error_apply_delta_total",
            SnapshotStage::RejectPayload => "snapshot_strict_error_reject_payload_total",
        }
    }
}

/// The sample counting one strict snapshot error.
pub open spec fn strict_error_sample(kind: Seq<char>, stage: SnapshotStage, base_index: u64, applied_index: u64) -> SampleView {
    sample_spec(MetricKind::Counter, stage_metric_name(stage), seq![
        ("error_key"@, kind),
        ("snapshot_stage"@, stage_label(stage)),
        ("base_index"@, decimal(base_index as nat)),
        ("applied_index"@, decimal(applied_index as nat)),
    ], 1)
}

/// Counts one strict snapshot error, labelled with its key, stage and the
/// indices involved.
pub fn record_snapshot_strict_error(kind: &str, stage: SnapshotStage, base_index: u64, applied_index: u64) -> (r: Vec<MetricSample>)
    ensures
        sample_views(r@) == seq![strict_error_sample(kind@, stage, base_index, applied_index)],
{
    let labels = labels4(
        label("error_key", kind.to_owned()),
        label("snapshot_stage", stage.as_str().to_owned()),
        label("base_index", u64_to_decimal(base_index)),
        label("applied_index", u64_to_decimal(applied_index)),
    );
    proof {
        reveal_strlit("error_key");
        reveal_strlit("snapshot_stage");
        reveal_strlit("base_index");
        reveal_strlit("applied_index");
    }
    samples1(sample(MetricKind::Counter, stage.strict_error_metric_name(), labels, 1))
}

/// Merge duration histogram.
pub const METRIC_MERGE_DURATION_MS: &'static str = "raft_snapshot_merge_duration_ms";
/// Successful merge counter.
pub const METRIC_MERGE_SUCCESS_TOTAL: &'static str = "raft_snapshot_merge_success_total";
/// Failed merge counter.
pub const METRIC_MERGE_FAILED_TOTAL: &'static str = "raft_snapshot_merge_failed_total";
/// Size of the last merged checkpoint.
pub const METRIC_CHECKPOINT_SIZE_BYTES: &'static str = "raft_snapshot_checkpoint_size_bytes";
/// Length of the delta chain.
pub const METRIC_DELTA_CHAIN_LENGTH: &'static str = "raft_snapshot_delta_chain_length";
/// Cumulative size of the delta chain in MiB.
pub const METRIC_DELTA_CUMULATIVE_MB: &'static str = "raft_snapshot_delta_cumulative_mb";

/// Bytes per MiB.
pub const BYTES_PER_MIB: u64 = 1048576;

/// Merge metrics of one node.
#[derive(Debug, Clone)]
pub struct MergeMetrics {
    node_id: String,
}

/// Duration in milliseconds of a merge started at `started` and observed at
/// `now` (zero if the clock went backwards, saturating at `u64::MAX`).
pub open spec fn merge_duration_ms(started: u64, now: u64) -> u64 {
    let secs: u64 = if now >= started { (now - started) as u64 } else { 0 };
    if secs * 1000 <= u64::MAX { (secs * 1000) as u64 } else { u64::MAX }
}

/// Computes [`merge_duration_ms`].
pub fn duration_ms_between(started: u64, now: u64) -> (ms: u64)
    ensures
        ms == merge_duration_ms(started, now),
{
    let secs = now.saturating_sub(started);
    match secs.checked_mul(1000) {
        Some(v) => v,
        None => u64::MAX,
    }
}

impl MergeMetrics {
    pub closed spec fn node(&self) -> Seq<char> {
        self.node_id@
    }

    pub fn new(node_id: String) -> (m: Self)
        ensures
            m.node() == node_id@,
    {
        MergeMetrics { node_id }
    }

    /// Chain length gauge and cumulative size gauge (in MiB).
    pub fn record_snapshot_chain(&self, chain_len: usize, cumulative_bytes: u64) -> (r: Vec<MetricSample>)
        ensures
            sample_views(r@) == seq![
                sample_spec(MetricKind::Gauge, "raft_snapshot_delta_chain_length"@, seq![node_label(self.node())], chain_len as u64),
                SampleView {
                    kind: MetricKind::Gauge,
                    name: "raft_snapshot_delta_cumulative_mb"@,
                    labels: seq![node_label(self.node())],
                    value: cumulative_bytes,
                    divisor: 1048576,
                },
            ],
    {
        proof { reveal_strlit("node_id"); }
        let a = sample(MetricKind::Gauge, METRIC_DELTA_CHAIN_LENGTH, labels1(label("node_id", self.node_id.clone())), chain_len as u64);
        let b = MetricSample {
            kind: MetricKind::Gauge,
            name: METRIC_DELTA_CUMULATIVE_MB.to_owned(),
            labels: labels1(label("node_id", self.node_id.clone())),
            value: cumulative_bytes,
            divisor: BYTES_PER_MIB,
        };
        samples2(a, b)
    }

    /// Duration histogram, success counter and checkpoint size gauge of a
    /// merge that succeeded after `retries` attempts.
    pub fn record_merge_success(&self, trigger: MergeTrigger, retries: u8, checkpoint_size_bytes: u64, started_at_secs: u64, now_secs: u64) -> (r: Vec<MetricSample>)
        ensures
            sample_views(r@) == seq![
                sample_spec(MetricKind::Histogram, "raft_snapshot_merge_duration_ms"@, seq![
                    node_label(self.node()),
                    ("trigger"@, trigger_label(trigger)),
                    ("retries"@, decimal(retries as nat)),
                ], merge_duration_ms(started_at_secs, now_secs)),
                sample_spec(MetricKind::Counter, "raft_snapshot_merge_success_total"@, seq![
                    node_label(self.node()),
                    ("trigger"@, trigger_label(trigger)),
                ], 1),
                sample_spec(MetricKind::Gauge, "raft_snapshot_checkpoint_size_bytes"@, seq![node_label(self.node())], checkpoint_size_bytes),
            ],
    {
        proof {
            reveal_strlit("node_id");
            reveal_strlit("trigger");
            reveal_strlit("retries");
        }
        let duration_ms = duration_ms_between(started_at_secs, now_secs);
        let a = sample(MetricKind::Histogram, METRIC_MERGE_DURATION_MS, labels3(
            label("node_id", self.node_id.clone()),
            label("trigger", trigger.as_str().to_owned()),
            label("retries", u64_to_decimal(retries as u64)),
        ), duration_ms);
        let b = sample(MetricKind::Counter, METRIC_MERGE_SUCCESS_TOTAL, labels2(
            label("node_id", self.node_id.clone()),
            label("trigger", trigger.as_str().to_owned()),
        ), 1);
        let c = sample(MetricKind::Gauge, METRIC_CHECKPOINT_SIZE_BYTES, labels1(label("node_id", self.node_id.clone())), checkpoint_size_bytes);
        samples3(a, b, c)
    }

    /// Duration histogram and failure counter of a merge that gave up after
    /// `retries` attempts with `error_code`; both carry the node, trigger,
    /// retries, `result=failed` and error code labels.
    pub fn record_merge_failure(&self, trigger: MergeTrigger, retries: u8, started_at_secs: u64, error_code: &str, now_secs: u64) -> (r: Vec<MetricSample>)
        ensures
            sample_views(r@) == seq![
                sample_spec(MetricKind::Histogram, "raft_snapshot_merge_duration_ms"@, seq![
                    node_label(self.node()),
                    ("trigger"@, trigger_label(trigger)),
                    ("retries"@, decimal(retries as nat)),
                    ("result"@, "failed"@),
                    ("error_code"@, error_code@),
                ], merge_duration_ms(started_at_secs, now_secs)),
                sample_spec(MetricKind::Counter, "raft_snapshot_merge_failed_total"@, seq![
                    node_label(self.node()),
                    ("trigger"@, trigger_label(trigger)),
                    ("retries"@, decimal(retries as nat)),
                    ("result"@, "failed"@),
                    ("error_code"@, error_code@),
                ], 1),
            ],
    {
        proof {
            reveal_strlit("node_id");
            reveal_strlit("trigger");
            reveal_strlit("retries");
            reveal_strlit("result");
            reveal_strlit("failed");
            reveal_strlit("error_code");
        }
        let duration_ms = duration_ms_between(started_at_secs, now_secs);
        let a = sample(MetricKind::Histogram, METRIC_MERGE_DURATION_MS, labels5(
            label("node_id", self.node_id.clone()),
            label("trigger", trigger.as_str().to_owned()),
            label("retries", u64_to_decimal(retries as u64)),
            label("result", String::from_str("failed")),
            label("error_code", error_code.to_owned()),
        ), duration_ms);
        let b = sample(MetricKind::Counter, METRIC_MERGE_FAILED_TOTAL, labels5(
            label("node_id", self.node_id.clone()),
            label("trigger", trigger.as_str().to_owned()),
            label("retries", u64_to_decimal(retries as u64)),
            label("result", String::from_str("failed")),
            label("error_code", error_code.to_owned()),
        ), 1);
        samples2(a, b)
    }
}

/// All metric recorders of one node.
pub struct AppMetrics {
    pub raft: raft::RaftMetrics,
    pub storage: storage::StorageMetrics,
    pub api: api::HttpMetrics,
    pub merge: MergeMetrics,
}

impl AppMetrics {
    pub fn new(node_id: u64) -> (m: Self)
        ensures
            m.raft.node() == node_id,
            m.storage.node() == node_id,
            m.api.node() == node_id,
            m.merge.node() == decimal(node_id as nat),
    {
        AppMetrics {
            raft: raft::RaftMetrics::new(node_id),
            storage: storage::StorageMetrics::new(node_id),
            api: api::HttpMetrics::new(node_id),
            merge: MergeMetrics::new(u64_to_decimal(node_id)),
        }
    }
}

/// Text served on the metrics endpoint: the exporter's rendering, or a
/// comment saying that no exporter was installed.
pub fn render_metrics(rendered: Option<String>) -> (s: String)
    ensures
        s@ == match rendered { Some(r) => r@, None => "# prometheus recorder not initialized\n"@ },
{
    match rendered {
        Some(r) => r,
        None => String::from_str("# prometheus recorder not initialized\n"),
    }
}

} // verus!
