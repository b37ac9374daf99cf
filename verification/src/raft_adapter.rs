//! Consensus-library adapter: storage traits expressed on plain bytes, the
//! timing settings common to the supported versions, and the mapping of
//! foreign errors into [`RaftError`].

use vstd::prelude::*;
use crate::error::RaftError;

verus! {

/// Log storage as the consensus layer drives it.
pub trait RaftLogStorageAdapter {
    /// Appends encoded entries to the log.
    fn append(&mut self, entries: Vec<Vec<u8>>) -> Result<(), RaftError>;

    /// Removes the entries from index `from` on.
    fn truncate(&mut self, from: u64) -> Result<(), RaftError>;

    /// Removes the entries up to index `upto`.
    fn purge(&mut self, upto: u64) -> Result<(), RaftError>;
}

/// Metadata of a snapshot handed between the consensus layer and the state
/// machine: its log position and the members (id and address) at that point.
#[derive(Debug, Clone, PartialEq, Eq)]
pub struct SnapshotMetadata {
    pub index: u64,
    pub term: u64,
    pub members: Vec<(u64, String)>,
}

/// State machine as the consensus layer drives it.
pub trait RaftStateMachineAdapter {
    /// Applies an encoded entry and returns the encoded response.
    fn apply(&mut self, entry: Vec<u8>) -> Result<Vec<u8>, RaftError>;

    /// The current snapshot's bytes.
    fn snapshot(&mut self) -> Result<Vec<u8>, RaftError>;

    /// Installs a snapshot.
    fn install_snapshot(&mut self, meta: SnapshotMetadata, snapshot: Vec<u8>) -> Result<(), RaftError>;
}

/// Timing settings common to the supported consensus-library versions.
#[derive(Debug, Clone, PartialEq, Eq)]
pub struct RaftConfig {
    pub election_timeout_ms: u64,
    pub heartbeat_interval_ms: u64,
}

impl Default for RaftConfig {
    /// Election timeout 150 ms, heartbeat every 50 ms.
    fn default() -> (c: Self)
        ensures
            c.election_timeout_ms == 150,
            c.heartbeat_interval_ms == 50,
    {
        RaftConfig { election_timeout_ms: 150, heartbeat_interval_ms: 50 }
    }
}

/// A consensus-library error, given by its display text, as a protocol error.
pub fn convert_openraft_error(message: String) -> (e: RaftError)
    ensures
        e == RaftError::RaftProto(message),
{
    RaftError::RaftProto(message)
}

/// An I/O error as such.
pub fn convert_io_error(err: std::io::Error) -> (e: RaftError)
    ensures
        e == RaftError::Io(err),
{
    RaftError::Io(err)
}

/// A serialization error, given by its display text.
pub fn convert_serde_error(message: String) -> (e: RaftError)
    ensures
        e == RaftError::Serialization(message),
{
    RaftError::Serialization(message)
}

} // verus!
