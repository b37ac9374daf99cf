//! Server side of the Raft RPC transport.

use vstd::prelude::*;
use std::sync::Arc;

verus! {

/// Server settings of the RPC transport.
#[derive(Debug, Clone, PartialEq, Eq)]
pub struct ServerConfig {
    /// Bind address.
    pub addr: String,
    /// Largest message, in bytes.
    pub max_message_size: usize,
}

impl Default for ServerConfig {
    /// `127.0.0.1:50051`, 64 MiB messages.
    fn default() -> (c: Self)
        ensures
            c.addr@ == "127.0.0.1:50051"@,
            c.max_message_size == 67108864,
    {
        ServerConfig { addr: String::from_str("127.0.0.1:50051"), max_message_size: 64 * 1024 * 1024 }
    }
}

/// RPC server dispatching to a Raft handler.
pub struct RaftGrpcServer<H> {
    handler: Arc<H>,
}

impl<H> RaftGrpcServer<H> {
    pub closed spec fn handler_spec(&self) -> Arc<H> {
        self.handler
    }

    pub fn new(handler: Arc<H>) -> (s: Self)
        ensures
            s.handler_spec() == handler,
    {
        RaftGrpcServer { handler }
    }

    /// The handler requests are dispatched to.
    pub fn handler(&self) -> (h: &Arc<H>)
        ensures
            *h == self.handler_spec(),
    {
        &self.handler
    }
}

} // verus!
