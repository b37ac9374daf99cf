//! HTTP request metrics.

use vstd::prelude::*;
use crate::metrics::{label, labels4, sample, samples2, sample_spec, sample_views, MetricKind, MetricSample, SampleView};
use crate::text::{decimal, u64_to_decimal};
use crate::clock::{instant_now, millis_since};
use std::time::Instant;

verus! {

/// HTTP metrics recorder of one node.
#[derive(Debug, Clone)]
pub struct HttpMetrics {
    node_id: u64,
}

/// Labels of an HTTP request sample.
pub open spec fn request_labels(node: u64, method: Seq<char>, endpoint: Seq<char>, status: u16) -> Seq<(Seq<char>, Seq<char>)> {
    seq![
        ("node_id"@, decimal(node as nat)),
        ("method"@, method),
        ("endpoint"@, endpoint),
        ("status"@, decimal(status as nat)),
    ]
}

/// The two samples of one HTTP request: the request counter and the
/// latency histogram.
pub open spec fn request_samples(node: u64, method: Seq<char>, endpoint: Seq<char>, status: u16, latency_ms: u64) -> Seq<SampleView> {
    seq![
        sample_spec(MetricKind::Counter, "http_requests_total"@, request_labels(node, method, endpoint, status), 1),
        sample_spec(MetricKind::Histogram, "http_request_duration_ms"@, request_labels(node, method, endpoint, status), latency_ms),
    ]
}

/// Status of a read: found or not found.
pub open spec fn get_status(found: bool) -> u16 {
    if found { 200 } else { 404 }
}

/// Status of a write: success or internal error.
pub open spec fn write_status(success: bool) -> u16 {
    if success { 200 } else { 500 }
}

impl HttpMetrics {
    pub closed spec fn node(&self) -> u64 {
        self.node_id
    }

    pub fn new(node_id: u64) -> (m: Self)
        ensures
            m.node() == node_id,
    {
        HttpMetrics { node_id }
    }

    fn request_labels_exec(&self, method: &str, endpoint: &str, status: u16) -> (l: Vec<(String, String)>)
        ensures
            crate::metrics::label_views(l@) == request_labels(self.node(), method@, endpoint@, status),
    {
        proof {
            reveal_strlit("node_id");
            reveal_strlit("method");
            reveal_strlit("endpoint");
            reveal_strlit("status");
        }
        labels4(
            label("node_id", u64_to_decimal(self.node_id)),
            label("method", method.to_owned()),
            label("endpoint", endpoint.to_owned()),
            label("status", u64_to_decimal(status as u64)),
        )
    }

    /// Counts one request and observes its latency.
    pub fn record_request(&self, method: &str, endpoint: &str, status: u16, latency_ms: u64) -> (r: Vec<MetricSample>)
        ensures
            sample_views(r@) == request_samples(self.node(), method@, endpoint@, status, latency_ms),
    {
        let a = sample(MetricKind::Counter, "http_requests_total", self.request_labels_exec(method, endpoint, status), 1);
        let b = sample(MetricKind::Histogram, "http_request_duration_ms", self.request_labels_exec(method, endpoint, status), latency_ms);
        samples2(a, b)
    }

    /// `GET /kv/:key`: 200 when the key was found, else 404.
    pub fn record_get_kv(&self, found: bool, latency_ms: u64) -> (r: Vec<MetricSample>)
        ensures
            sample_views(r@) == request_samples(self.node(), "GET"@, "/kv/:key"@, get_status(found), latency_ms),
    {
        let status: u16 = if found { 200 } else { 404 };
        self.record_request("GET", "/kv/:key", status, latency_ms)
    }

    /// `POST /kv/:key`: 200 on success, else 500.
    pub fn record_put_kv(&self, success: bool, latency_ms: u64) -> (r: Vec<MetricSample>)
        ensures
            sample_views(r@) == request_samples(self.node(), "POST"@, "/kv/:key"@, write_status(success), latency_ms),
    {
        let status: u16 = if success { 200 } else { 500 };
        self.record_request("POST", "/kv/:key", status, latency_ms)
    }

    /// `DELETE /kv/:key`: 200 on success, else 500.
    pub fn record_delete_kv(&self, success: bool, latency_ms: u64) -> (r: Vec<MetricSample>)
        ensures
            sample_views(r@) == request_samples(self.node(), "DELETE"@, "/kv/:key"@, write_status(success), latency_ms),
    {
        let status: u16 = if success { 200 } else { 500 };
        self.record_request("DELETE", "/kv/:key", status, latency_ms)
    }

    /// `GET /health`, always 200.
    pub fn record_health_check(&self, latency_ms: u64) -> (r: Vec<MetricSample>)
        ensures
            sample_views(r@) == request_samples(self.node(), "GET"@, "/health"@, 200, latency_ms),
    {
        self.record_request("GET", "/health", 200, latency_ms)
    }

    /// `GET /status`, always 200.
    pub fn record_status(&self, latency_ms: u64) -> (r: Vec<MetricSample>)
        ensures
            sample_views(r@) == request_samples(self.node(), "GET"@, "/status"@, 200, latency_ms),
    {
        self.record_request("GET", "/status", 200, latency_ms)
    }
}

/// Measures the latency of a request.
#[derive(Debug)]
pub struct RequestTimer {
    start: Instant,
}

impl RequestTimer {
    /// Starts measuring now.
    pub fn new() -> Self {
        RequestTimer { start: instant_now() }
    }

    /// Milliseconds since the timer started.
    pub fn elapsed_ms(&self) -> u64 {
        millis_since(&self.start)
    }
}

impl Default for RequestTimer {
    fn default() -> Self {
        Self::new()
    }
}

} // verus!
