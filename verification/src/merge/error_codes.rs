//! Stable merge error codes, used in error messages, metric labels and alerts.

use vstd::prelude::*;

verus! {

/// The snapshot state has no baseline checkpoint.
pub const MERGE_ERR_BASELINE_MISSING: &'static str = "MERGE_BASELINE_MISSING";
/// The baseline checkpoint records no directory.
pub const MERGE_ERR_BASELINE_PATH_REQUIRED: &'static str = "MERGE_BASELINE_PATH_REQUIRED";
/// The baseline checkpoint directory does not exist.
pub const MERGE_ERR_BASELINE_PATH_MISSING: &'static str = "MERGE_BASELINE_PATH_MISSING";
/// Failure injected on purpose.
pub const MERGE_ERR_INJECTED_FAILURE: &'static str = "MERGE_INJECTED_FAILURE";
/// Any failure without a code of its own.
pub const MERGE_ERR_UNKNOWN: &'static str = "MERGE_UNKNOWN";

} // verus!
