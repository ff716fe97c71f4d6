//! Records kept about reasoning sessions. Only the parts that carry
//! plain values live here; traces with measured scores are host-side
//! data.

use vstd::prelude::*;

verus! {

/// One recorded divergence spike and how it was resolved.
#[derive(Clone, Debug, PartialEq)]
pub struct GradientStep {
    pub timestamp: u64,
    /// One of `empathic`, `logical`, `causal`.
    pub divergence_type: String,
    /// One of `self-correction`, `external feedback`.
    pub resolution_method: String,
    /// One of `accepted`, `rejected`, `integrated`.
    pub outcome: String,
}

} // verus!
