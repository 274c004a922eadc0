//! Structural bounds and default policy values of the executor.

use vstd::prelude::*;

verus! {

/// Maximum number of conditions per requirement.
pub const MAX_CONDITIONS: usize = 8;

/// Maximum length of the stored call payload in bytes.
pub const MAX_IX_DATA_LEN: usize = 1024;

/// Maximum length of a single expected outcome in bytes.
pub const MAX_OUTCOME_LEN: usize = 64;

/// Default freshness window: 60 minutes.
pub const DEFAULT_MAX_PROOF_AGE_SECS: u32 = 3600;

/// Default future skew tolerance: 5 minutes.
pub const DEFAULT_MAX_FUTURE_SKEW_SECS: u32 = 300;

} // verus!
