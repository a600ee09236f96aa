//! Pipeline configuration: the stages, in the order they are tried.

use vstd::prelude::*;

verus! {

/// One stage entry of the pipeline configuration.
///
/// `doubt_threshold` is in hundredths, rounded down: a stage runs when the
/// lead's doubt (a whole number of hundredths) is above it, and for a whole
/// number `d` and any fraction `t`, `d > t` holds exactly when `d > floor(t)`.
#[derive(Debug, Clone)]
pub struct PipelineStage {
    /// Stage name: `"shallow"`, `"waterfall"` or `"agent"`.
    pub stage: String,
    /// Run this stage if the lead's current doubt is above this threshold.
    pub doubt_threshold: i64,
    /// How many cents to charge the lead's budget when this stage runs.
    pub cost: i64,
}

} // verus!
