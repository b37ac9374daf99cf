//! Client side of the Raft RPC transport: client settings, peer address
//! resolution, the scheme of an endpoint and the retry policy of an RPC.

use vstd::prelude::*;
use std::collections::HashMap;
use crate::error::RaftError;
use crate::text::{decimal, push_decimal, push_decimal_wide, starts_with, starts_with_spec};
use crate::types::NodeId;

verus! {

/// Client settings of the RPC transport.
#[derive(Debug, Clone, PartialEq, Eq)]
pub struct ClientConfig {
    /// Connection timeout, in milliseconds.
    pub connect_timeout_ms: u64,
    /// Timeout of one RPC attempt, in milliseconds.
    pub request_timeout_ms: u64,
    /// Retries after a failed attempt.
    pub max_retries: usize,
    /// Largest message, in bytes.
    pub max_message_size: usize,
}

impl Default for ClientConfig {
    /// Connect within 3 s, answer within 2 s, retry twice, 64 MiB messages.
    fn default() -> (c: Self)
        ensures
            c.connect_timeout_ms == 3000,
            c.request_timeout_ms == 2000,
            c.max_retries == 2,
            c.max_message_size == 67108864,
    {
        ClientConfig {
            connect_timeout_ms: 3000,
            request_timeout_ms: 2000,
            max_retries: 2,
            max_message_size: 64 * 1024 * 1024,
        }
    }
}

/// Resolves the address of a node.
pub trait AddressResolver {
    fn resolve(&self, node_id: NodeId) -> Result<String, RaftError>;
}

/// Resolver backed by a fixed map of addresses.
#[derive(Debug, Clone)]
pub struct StaticAddressResolver {
    addresses: HashMap<NodeId, String>,
}

/// Message of a node without a known address.
pub open spec fn no_address_text(node_id: NodeId) -> Seq<char> {
    "No address found for node "@ + decimal(node_id as nat)
}

impl StaticAddressResolver {
    /// The addresses the resolver answers from.
    pub closed spec fn addresses(&self) -> Map<NodeId, String> {
        self.addresses@
    }

    pub fn new(addresses: HashMap<NodeId, String>) -> (r: Self)
        ensures
            r.addresses() == addresses@,
    {
        StaticAddressResolver { addresses }
    }
}

impl AddressResolver for StaticAddressResolver {
    /// The recorded address of `node_id`, else a network error.
    fn resolve(&self, node_id: NodeId) -> (r: Result<String, RaftError>)
        ensures
            match r {
                Ok(a) => self.addresses().contains_key(node_id) && a@ == self.addresses()[node_id]@,
                Err(e) => !self.addresses().contains_key(node_id)
                    && (e matches RaftError::Network(m) && m@ == no_address_text(node_id)),
            },
    {
        broadcast use vstd::std_specs::hash::group_hash_axioms;
        match self.addresses.get(&node_id) {
            Some(a) => Ok(a.clone()),
            None => {
                proof { reveal_strlit("No address found for node "); }
                let mut m = String::from_str("No address found for node ");
                push_decimal(&mut m, node_id);
                Err(RaftError::Network(m))
            },
        }
    }
}

/// Endpoint URI of an address: kept when it starts with `http://` or
/// `https://`, else prefixed with `http://`.
pub open spec fn endpoint_uri(addr: Seq<char>) -> Seq<char> {
    if starts_with_spec(addr, "http://"@) || starts_with_spec(addr, "https://"@) { addr } else { "http://"@ + addr }
}

/// Computes [`endpoint_uri`].
pub fn with_scheme(addr: &str) -> (s: String)
    ensures
        s@ == endpoint_uri(addr@),
{
    if starts_with(addr, "http://") || starts_with(addr, "https://") {
        addr.to_owned()
    } else {
        proof { reveal_strlit("http://"); }
        let mut s = String::from_str("http://");
        s.append(addr);
        s
    }
}

/// The three Raft RPCs.
#[derive(Debug, Clone, Copy, PartialEq, Eq, Structural)]
pub enum RpcKind {
    AppendEntries,
    RequestVote,
    InstallSnapshot,
}

/// Name of an RPC in messages.
pub open spec fn rpc_name(k: RpcKind) -> Seq<char> {
    match k {
        RpcKind::AppendEntries => "AppendEntries"@,
        RpcKind::RequestVote => "RequestVote"@,
        RpcKind::InstallSnapshot => "InstallSnapshot"@,
    }
}

impl RpcKind {
    pub fn name(self) -> (s: &'static str)
        ensures
            s@ == rpc_name(self),
    {
        match self {
            RpcKind::AppendEntries => "AppendEntries",
            RpcKind::RequestVote => "RequestVote",
            RpcKind::InstallSnapshot => "InstallSnapshot",
        }
    }
}

/// How an attempt failed.
#[derive(Debug, Clone)]
pub enum RpcFailure {
    /// The peer answered with an error status (its text).
    Status(String),
    /// No answer within the request timeout.
    Timeout,
}

/// Message of an RPC that gave up after `attempts` attempts.
pub open spec fn give_up_text(k: RpcKind, target: NodeId, attempts: nat, f: RpcFailure) -> Seq<char> {
    let head = rpc_name(k) + " RPC to node "@ + decimal(target as nat);
    match f {
        RpcFailure::Status(e) => head + " failed after "@ + decimal(attempts) + " attempts: "@ + e@,
        RpcFailure::Timeout => head + " timed out after "@ + decimal(attempts) + " attempts"@,
    }
}

/// Retry state of one RPC.
#[derive(Debug, Clone, PartialEq, Eq)]
pub struct RpcAttempts {
    pub kind: RpcKind,
    pub target: NodeId,
    /// Retries made so far.
    pub attempt: usize,
    pub max_retries: usize,
}

/// Retry state after a failed attempt: one more retry counted while
/// retries remain, else unchanged (the failure is reported).
pub open spec fn failure_step(a: RpcAttempts) -> RpcAttempts {
    if a.attempt < a.max_retries {
        RpcAttempts { attempt: (a.attempt + 1) as usize, ..a }
    } else {
        a
    }
}

/// Retry state after `k` failed attempts in a row.
pub open spec fn after_failures(a: RpcAttempts, k: nat) -> RpcAttempts
    decreases k,
{
    if k == 0 { a } else { failure_step(after_failures(a, (k - 1) as nat)) }
}

impl RpcAttempts {
    /// No retry made yet.
    pub fn new(kind: RpcKind, target: NodeId, max_retries: usize) -> (r: Self)
        ensures
            r == (RpcAttempts { kind, target, attempt: 0, max_retries }),
    {
        RpcAttempts { kind, target, attempt: 0, max_retries }
    }

    /// After a failed attempt: `None` to retry (one more retry counted)
    /// while retries remain, else the network error to report.
    pub fn on_failure(&mut self, failure: RpcFailure) -> (r: Option<RaftError>)
        ensures
            *final(self) == failure_step(*old(self)),
            old(self).attempt < old(self).max_retries ==> r is None,
            old(self).attempt >= old(self).max_retries ==> (r matches Some(RaftError::Network(m))
                    && m@ == give_up_text(old(self).kind, old(self).target, old(self).attempt as nat + 1, failure)),
    {
        if self.attempt < self.max_retries {
            self.attempt = self.attempt + 1;
            return None;
        }
        proof {
            reveal_strlit(" RPC to node ");
            reveal_strlit(" failed after ");
            reveal_strlit(" attempts: ");
            reveal_strlit(" timed out after ");
            reveal_strlit(" attempts");
        }
        let mut m = self.kind.name().to_owned();
        m.append(" RPC to node ");
        push_decimal(&mut m, self.target);
        match failure {
            RpcFailure::Status(e) => {
                m.append(" failed after ");
                push_decimal_wide(&mut m, self.attempt as u128 + 1);
                m.append(" attempts: ");
                m.append(e.as_str());
            },
            RpcFailure::Timeout => {
                m.append(" timed out after ");
                push_decimal_wide(&mut m, self.attempt as u128 + 1);
                m.append(" attempts");
            },
        }
        Some(RaftError::Network(m))
    }
}

/// An RPC whose every attempt fails makes exactly `max_retries + 1`
/// attempts: from a fresh retry state, after `k <= max_retries` failures
/// `k` retries are counted, and the next failure is retried exactly when
/// `k < max_retries`; the `max_retries + 1`-th failure is reported.
pub proof fn law_rpc_attempts_bounded(kind: RpcKind, target: NodeId, max_retries: usize, k: nat)
    requires
        k <= max_retries,
    ensures
        after_failures(RpcAttempts { kind, target, attempt: 0, max_retries }, k)
            == (RpcAttempts { kind, target, attempt: k as usize, max_retries }),
        (after_failures(RpcAttempts { kind, target, attempt: 0, max_retries }, k).attempt < max_retries) <==> k < max_retries,
    decreases k,
{
    if k > 0 {
        law_rpc_attempts_bounded(kind, target, max_retries, (k - 1) as nat);
    }
}

/// Where the client of a peer comes from: the cached one, or a new
/// connection to an address the resolver gave.
pub enum ClientSource<'a, C> {
    Cached(&'a C),
    Connect(String),
}

/// Cache of the RPC clients of the peers, keyed by node id, with the
/// resolver that finds a peer's address and the settings new clients use.
pub struct ConnectionPool<R, C> {
    clients: HashMap<NodeId, C>,
    resolver: R,
    config: ClientConfig,
}

impl<R: AddressResolver, C> ConnectionPool<R, C> {
    /// The cached clients.
    pub closed spec fn clients(&self) -> Map<NodeId, C> {
        self.clients@
    }

    pub closed spec fn resolver_spec(&self) -> R {
        self.resolver
    }

    pub closed spec fn config_spec(&self) -> ClientConfig {
        self.config
    }

    /// An empty pool with the default client settings.
    pub fn new(resolver: R) -> (p: Self)
        ensures
            p.clients() == Map::<NodeId, C>::empty(),
            p.resolver_spec() == resolver,
            p.config_spec() == (ClientConfig {
                connect_timeout_ms: 3000,
                request_timeout_ms: 2000,
                max_retries: 2,
                max_message_size: 67108864,
            }),
    {
        Self::with_config(resolver, ClientConfig::default())
    }

    /// An empty pool with custom client settings.
    pub fn with_config(resolver: R, config: ClientConfig) -> (p: Self)
        ensures
            p.clients() == Map::<NodeId, C>::empty(),
            p.resolver_spec() == resolver,
            p.config_spec() == config,
    {
        ConnectionPool { clients: HashMap::new(), resolver, config }
    }

    /// The client of `target`: the cached one when there is one, else the
    /// address to connect to, as the resolver gives it (its error when it
    /// has none).
    pub fn get_client(&self, target: NodeId) -> (r: Result<ClientSource<'_, C>, RaftError>)
        ensures
            self.clients().contains_key(target) <==> (r matches Ok(ClientSource::Cached(_))),
            r matches Ok(ClientSource::Cached(c)) ==> *c == self.clients()[target],
    {
        broadcast use vstd::std_specs::hash::group_hash_axioms;
        match self.clients.get(&target) {
            Some(c) => Ok(ClientSource::Cached(c)),
            None => match self.resolver.resolve(target) {
                Ok(addr) => Ok(ClientSource::Connect(addr)),
                Err(e) => Err(e),
            },
        }
    }

    /// Caches `client` as the client of `target`.
    pub fn insert_client(&mut self, target: NodeId, client: C)
        ensures
            final(self).clients() == old(self).clients().insert(target, client),
            final(self).resolver_spec() == old(self).resolver_spec(),
            final(self).config_spec() == old(self).config_spec(),
    {
        broadcast use vstd::std_specs::hash::group_hash_axioms;
        self.clients.insert(target, client);
    }

    /// Number of cached clients.
    pub fn client_count(&self) -> (n: usize)
        ensures
            n == self.clients().len(),
    {
        broadcast use vstd::std_specs::hash::group_hash_axioms;
        self.clients.len()
    }

    /// Drops the cached client of `target` (after a connection failure).
    pub fn remove_client(&mut self, target: NodeId)
        ensures
            final(self).clients() == old(self).clients().remove(target),
            final(self).resolver_spec() == old(self).resolver_spec(),
            final(self).config_spec() == old(self).config_spec(),
    {
        broadcast use vstd::std_specs::hash::group_hash_axioms;
        self.clients.remove(&target);
    }

    /// The settings new clients use.
    pub fn config(&self) -> (c: &ClientConfig)
        ensures
            *c == self.config_spec(),
    {
        &self.config
    }
}

/// A client cached for a peer is what the pool hands out for that peer
/// until it is removed; removing it makes the pool connect anew.
pub proof fn law_pool_cache<R: AddressResolver, C>(before: ConnectionPool<R, C>, cached: ConnectionPool<R, C>, removed: ConnectionPool<R, C>, target: NodeId, client: C)
    requires
        cached.clients() == before.clients().insert(target, client),
        removed.clients() == cached.clients().remove(target),
    ensures
        cached.clients().contains_key(target) && cached.clients()[target] == client,
        !removed.clients().contains_key(target),
        forall|k: NodeId| k != target ==> (#[trigger] removed.clients().contains_key(k) <==> before.clients().contains_key(k)),
{
}

} // verus!
