//! Core logic of a Raft-replicated key-value store: the key-value state
//! machine, the applied-log index, snapshot envelopes and delta chains, the
//! merge policy and its retry protocol, configuration validation and the
//! metric samples the service emits.

pub mod api;
pub mod clock;
pub mod config;
pub mod error;
pub mod merge;
pub mod metrics;
pub mod network;
pub mod node;
pub mod raft_adapter;
pub mod shutdown;
pub mod snapshot;
pub mod state;
pub mod storage;
pub mod text;
pub mod types;
pub mod wire;
