//! Error type shared by the storage, snapshot, network and merge layers.

use vstd::prelude::*;

verus! {

#[verifier::external_type_specification]
#[verifier::external_body]
pub struct ExIoError(std::io::Error);

/// Errors of the replicated store.
#[derive(Debug)]
pub enum RaftError {
    /// I/O error from the storage engine or the filesystem.
    Io(std::io::Error),
    /// Serialization or deserialization error.
    Serialization(String),
    /// Storage operation error.
    Storage(String),
    /// Network communication error.
    Network(String),
    /// Raft protocol violation.
    RaftProto(String),
    /// Snapshot operation error.
    Snapshot(String),
    /// State machine operation error.
    StateMachine(String),
    /// Any other error.
    Other(String),
}

/// Result of the fallible operations of this crate.
pub type RaftResult<T> = core::result::Result<T, RaftError>;

/// Display text of an error that carries a message: a fixed prefix per kind,
/// then the message.
pub open spec fn error_text(e: RaftError) -> Seq<char> {
    match e {
        RaftError::Io(_) => "IO error: "@,
        RaftError::Serialization(m) => "Serialization error: "@ + m@,
        RaftError::Storage(m) => "Storage error: "@ + m@,
        RaftError::Network(m) => "Network error: "@ + m@,
        RaftError::RaftProto(m) => "Raft protocol error: "@ + m@,
        RaftError::Snapshot(m) => "Snapshot error: "@ + m@,
        RaftError::StateMachine(m) => "State machine error: "@ + m@,
        RaftError::Other(m) => "Error: "@ + m@,
    }
}

impl RaftError {
    /// Display text of the error, e.g. `Snapshot error: <message>`. For an
    /// I/O error the prefix `IO error: ` is followed by the I/O error's own
    /// text.
    pub fn to_string(&self) -> (s: String)
        ensures
            match self {
                RaftError::Io(_) => s@.len() >= 10 && s@.subrange(0, 10) == error_text(*self),
                _ => s@ == error_text(*self),
            },
    {
        proof { reveal_strlit("IO error: "); }
        let (prefix, msg): (&str, String) = match self {
            RaftError::Io(e) => ("IO error: ", e.to_string()),
            RaftError::Serialization(m) => ("Serialization error: ", m.clone()),
            RaftError::Storage(m) => ("Storage error: ", m.clone()),
            RaftError::Network(m) => ("Network error: ", m.clone()),
            RaftError::RaftProto(m) => ("Raft protocol error: ", m.clone()),
            RaftError::Snapshot(m) => ("Snapshot error: ", m.clone()),
            RaftError::StateMachine(m) => ("State machine error: ", m.clone()),
            RaftError::Other(m) => ("Error: ", m.clone()),
        };
        let mut s = String::from_str(prefix);
        s.append(msg.as_str());
        s
    }
}

} // verus!
