//! Decisions of a running node: its consensus timing, the check of the
//! initial membership, when a rejected write may be applied locally, and the
//! role it reports.

use vstd::prelude::*;
use std::collections::BTreeMap;
use crate::config::Config;
use crate::text::{contains, contains_spec};

verus! {

/// Timing handed to the consensus layer.
#[derive(Debug, Clone, PartialEq, Eq)]
pub struct RaftTiming {
    pub heartbeat_interval: u64,
    pub election_timeout_min: u64,
    pub election_timeout_max: u64,
    pub max_payload_entries: u64,
}

/// `a + b`, saturating at the type's maximum.
pub open spec fn sat_add(a: u64, b: u64) -> u64 {
    if a + b <= u64::MAX { (a + b) as u64 } else { u64::MAX }
}

/// Consensus timing of a configuration: the election timeout ranges from
/// the configured value to that value plus one heartbeat (at least 1 ms).
pub fn raft_timing(config: &Config) -> (t: RaftTiming)
    ensures
        t.heartbeat_interval == config.raft.heartbeat_interval_ms,
        t.election_timeout_min == config.raft.election_timeout_ms,
        t.election_timeout_max == sat_add(config.raft.election_timeout_ms,
            if config.raft.heartbeat_interval_ms >= 1 { config.raft.heartbeat_interval_ms } else { 1 }),
        t.max_payload_entries == config.raft.max_payload_entries,
{
    let hb = if config.raft.heartbeat_interval_ms >= 1 { config.raft.heartbeat_interval_ms } else { 1 };
    RaftTiming {
        heartbeat_interval: config.raft.heartbeat_interval_ms,
        election_timeout_min: config.raft.election_timeout_ms,
        election_timeout_max: config.raft.election_timeout_ms.saturating_add(hb),
        max_payload_entries: config.raft.max_payload_entries,
    }
}

/// Checks the members a cluster is initialized with: there must be some,
/// and this node must be among them.
pub fn check_initial_members(node_id: u64, members: &BTreeMap<u64, String>) -> (r: Result<(), String>)
    ensures
        match r {
            Ok(_) => members@.len() > 0 && members@.contains_key(node_id),
            Err(m) => if members@.len() == 0 {
                m@ == "raft initialize members cannot be empty"@
            } else {
                !members@.contains_key(node_id) && m@ == "raft initialize members must include current node"@
            },
        },
{
    broadcast use vstd::std_specs::btree::group_btree_axioms;
    if members.len() == 0 {
        return Err(String::from_str("raft initialize members cannot be empty"));
    }
    if !members.contains_key(&node_id) {
        return Err(String::from_str("raft initialize members must include current node"));
    }
    Ok(())
}

/// Lower-case form of a string (Unicode case mapping).
pub uninterp spec fn lowercase(s: Seq<char>) -> Seq<char>;

/// `str::to_lowercase`: the Unicode lower-case mapping of `s`, a function of
/// the text alone.
#[verifier::external_body]
fn to_lowercase(s: &str) -> (t: String)
    ensures
        t@ == lowercase(s@),
{
    s.to_lowercase()
}

/// Whether a consensus-layer write error means the write may be applied to
/// the local state machine instead: its lower-cased text mentions
/// forwarding, the leader, or unavailability.
pub open spec fn fallback_allowed(message: Seq<char>) -> bool {
    let lower = lowercase(message);
    contains_spec(lower, "forward"@) || contains_spec(lower, "leader"@)
        || contains_spec(lower, "temporarily unavailable"@) || contains_spec(lower, "unavailable"@)
}

/// The outcome of a write the consensus layer rejected with `message`:
/// `Ok` to apply it locally, else the error to report.
pub fn write_after_raft_error(message: &str) -> (r: Result<(), String>)
    ensures
        match r {
            Ok(_) => fallback_allowed(message@),
            Err(m) => !fallback_allowed(message@) && m@ == "raft client_write failed: "@ + message@,
        },
{
    let lower = to_lowercase(message);
    let l = lower.as_str();
    if contains(l, "forward") || contains(l, "leader") || contains(l, "temporarily unavailable") || contains(l, "unavailable") {
        return Ok(());
    }
    proof { reveal_strlit("raft client_write failed: "); }
    let mut m = String::from_str("raft client_write failed: ");
    m.append(message);
    Err(m)
}

/// Role a node reports: the consensus layer's state when it runs, else
/// `Standalone` or `Running`.
pub fn current_role(raft_state: Option<String>, is_standalone: bool) -> (r: String)
    ensures
        match raft_state {
            Some(s) => r == s,
            None => r@ == if is_standalone { "Standalone"@ } else { "Running"@ },
        },
{
    match raft_state {
        Some(s) => s,
        None => if is_standalone { String::from_str("Standalone") } else { String::from_str("Running") },
    }
}

/// Whether a node runs real consensus: it has a consensus handle and is not
/// standalone.
pub fn is_real_raft(has_raft: bool, is_standalone: bool) -> (b: bool)
    ensures
        b == (has_raft && !is_standalone),
{
    has_raft && !is_standalone
}

} // verus!
