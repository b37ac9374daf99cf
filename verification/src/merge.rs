//! Hybrid snapshot merge: the policy that decides when the delta chain is
//! folded into a new full checkpoint, the retry protocol of a merge, and the
//! selection of stale artifacts to clean up.

pub mod checkpoint_backend;
pub mod cleanup;
pub mod error_codes;
pub mod executor;
pub mod policy;
