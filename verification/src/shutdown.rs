//! Graceful shutdown signal shared by the service's tasks.

use vstd::prelude::*;
use std::sync::Arc;
use std::sync::atomic::{AtomicBool, Ordering};

verus! {

/// A flag raised once when the service starts shutting down; clones share it.
#[derive(Debug, Clone)]
pub struct ShutdownSignal {
    is_shutting_down: Arc<AtomicBool>,
}

impl ShutdownSignal {
    /// A lowered flag.
    pub fn new() -> Self {
        ShutdownSignal { is_shutting_down: Arc::new(AtomicBool::new(false)) }
    }

    /// Raises the flag.
    pub fn shutdown(&self) {
        self.is_shutting_down.store(true, Ordering::SeqCst);
    }

    /// Whether the flag was raised. Another task may raise it at any time,
    /// so no value is promised.
    pub fn is_shutting_down(&self) -> bool {
        self.is_shutting_down.load(Ordering::SeqCst)
    }
}

impl Default for ShutdownSignal {
    fn default() -> Self {
        Self::new()
    }
}

} // verus!
