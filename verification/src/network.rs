//! Raft RPC transport: the network factory and its per-peer handles, and
//! the chunking of a snapshot sent to a peer.

pub mod client;
pub mod server;

use vstd::prelude::*;
use std::collections::HashMap;
use crate::network::client::{AddressResolver, ClientConfig, StaticAddressResolver};
use crate::types::NodeId;

verus! {

/// Creates the network handle of each peer.
#[derive(Debug, Clone)]
pub struct GrpcRaftNetworkFactory<R> {
    resolver: R,
    config: ClientConfig,
}

impl<R: AddressResolver> GrpcRaftNetworkFactory<R> {
    pub closed spec fn resolver_spec(&self) -> R {
        self.resolver
    }

    pub closed spec fn config_spec(&self) -> ClientConfig {
        self.config
    }

    /// A factory with the default client settings.
    pub fn new(resolver: R) -> (f: Self)
        ensures
            f.resolver_spec() == resolver,
            f.config_spec() == (ClientConfig {
                connect_timeout_ms: 3000,
                request_timeout_ms: 2000,
                max_retries: 2,
                max_message_size: 67108864,
            }),
    {
        GrpcRaftNetworkFactory { resolver, config: ClientConfig::default() }
    }

    /// A factory with custom client settings.
    pub fn with_config(resolver: R, config: ClientConfig) -> (f: Self)
        ensures
            f.resolver_spec() == resolver,
            f.config_spec() == config,
    {
        GrpcRaftNetworkFactory { resolver, config }
    }

    /// The handle for `target`.
    pub fn new_client(&self, target: NodeId) -> (n: GrpcRaftNetwork)
        ensures
            n.target == target,
    {
        GrpcRaftNetwork { target }
    }

    /// The address resolver.
    pub fn resolver(&self) -> (r: &R)
        ensures
            *r == self.resolver_spec(),
    {
        &self.resolver
    }

    /// The client settings.
    pub fn config(&self) -> (c: &ClientConfig)
        ensures
            *c == self.config_spec(),
    {
        &self.config
    }
}

impl GrpcRaftNetworkFactory<StaticAddressResolver> {
    /// A factory resolving addresses from a fixed map.
    pub fn with_static_addresses(addresses: HashMap<NodeId, String>) -> (f: Self)
        ensures
            f.resolver_spec().addresses() == addresses@,
            f.config_spec().max_retries == 2,
    {
        Self::new(StaticAddressResolver::new(addresses))
    }
}

/// Network handle of one peer.
#[derive(Debug, Clone, PartialEq, Eq)]
pub struct GrpcRaftNetwork {
    pub target: NodeId,
}

/// One chunk of a snapshot sent to a peer: bytes `[offset, end)`, and
/// whether it is the last.
#[derive(Debug, Clone, Copy, PartialEq, Eq)]
pub struct SnapshotChunk {
    pub offset: usize,
    pub end: usize,
    pub done: bool,
}

/// Chunk size used: the requested one (1 MiB by default), at least 1.
pub open spec fn effective_chunk_size(requested: Option<usize>) -> usize {
    let c = match requested { Some(c) => c, None => 1048576 };
    if c >= 1 { c } else { 1 }
}

/// Chunks covering `[offset, len)` in steps of `size`.
pub open spec fn chunks_from(offset: usize, len: usize, size: usize) -> Seq<SnapshotChunk>
    decreases len - offset,
{
    if offset >= len || size == 0 {
        Seq::empty()
    } else {
        let end: usize = if len - offset <= size { len } else { (offset + size) as usize };
        seq![SnapshotChunk { offset, end, done: end == len }] + chunks_from(end, len, size)
    }
}

/// Chunks of a snapshot of `len` bytes: a single empty final chunk for an
/// empty snapshot, else consecutive chunks of the chunk size, the last one
/// marked done.
pub open spec fn snapshot_chunks_spec(len: usize, requested: Option<usize>) -> Seq<SnapshotChunk> {
    if len == 0 {
        seq![SnapshotChunk { offset: 0, end: 0, done: true }]
    } else {
        chunks_from(0, len, effective_chunk_size(requested))
    }
}

/// Computes [`snapshot_chunks_spec`].
pub fn snapshot_chunks(len: usize, requested: Option<usize>) -> (r: Vec<SnapshotChunk>)
    ensures
        r@ == snapshot_chunks_spec(len, requested),
{
    let c = match requested { Some(c) => c, None => 1048576 };
    let size = if c >= 1 { c } else { 1 };
    let mut out: Vec<SnapshotChunk> = Vec::new();
    if len == 0 {
        out.push(SnapshotChunk { offset: 0, end: 0, done: true });
        assert(out@ =~= seq![SnapshotChunk { offset: 0, end: 0, done: true }]);
        return out;
    }
    let mut offset: usize = 0;
    while offset < len
        invariant
            size >= 1,
            size == effective_chunk_size(requested),
            offset <= len,
            out@ + chunks_from(offset, len, size) == chunks_from(0, len, size),
        decreases len - offset,
    {
        let end: usize = if len - offset <= size { len } else { offset + size };
        let ghost prev = out@;
        out.push(SnapshotChunk { offset, end, done: end == len });
        proof {
            assert(chunks_from(offset, len, size) == seq![SnapshotChunk { offset, end, done: end == len }] + chunks_from(end, len, size));
            assert(out@ + chunks_from(end, len, size) =~= prev + chunks_from(offset, len, size));
        }
        offset = end;
    }
    proof {
        assert(chunks_from(offset, len, size) =~= Seq::<SnapshotChunk>::empty());
        assert(out@ =~= out@ + Seq::<SnapshotChunk>::empty());
    }
    out
}

/// The chunks of a non-empty snapshot tile it: they start at 0, each starts
/// where the previous ended, none is empty, and only the last, which ends at
/// the snapshot's length, is marked done.
pub proof fn law_chunks_tile(offset: usize, len: usize, size: usize)
    requires
        size >= 1,
        offset < len,
    ensures
        ({
            let cs = chunks_from(offset, len, size);
            &&& cs.len() > 0
            &&& cs[0].offset == offset
            &&& cs.last().end == len
            &&& cs.last().done
            &&& forall|i: int| 0 <= i < cs.len() ==> #[trigger] cs[i].offset < cs[i].end
            &&& forall|i: int| 0 <= i < cs.len() - 1 ==> #[trigger] cs[i].end == cs[i + 1].offset && !cs[i].done
        }),
    decreases len - offset,
{
    let end: usize = if len - offset <= size { len } else { (offset + size) as usize };
    let head = SnapshotChunk { offset, end, done: end == len };
    let cs = chunks_from(offset, len, size);
    let rest = chunks_from(end, len, size);
    assert(cs == seq![head] + rest);
    if end < len {
        law_chunks_tile(end, len, size);
        assert forall|i: int| 0 <= i < cs.len() implies #[trigger] cs[i].offset < cs[i].end by {
            if i > 0 { assert(cs[i] == rest[i - 1]); }
        }
        assert forall|i: int| 0 <= i < cs.len() - 1 implies #[trigger] cs[i].end == cs[i + 1].offset && !cs[i].done by {
            assert(cs[i + 1] == rest[i]);
            if i > 0 { assert(cs[i] == rest[i - 1]); }
        }
        assert(cs.last() == rest.last());
    } else {
        assert(rest =~= Seq::<SnapshotChunk>::empty());
        assert(cs =~= seq![head]);
    }
}

} // verus!
