//! Named defaults of the pipeline's policy.
use vstd::prelude::*;

verus! {

/// Fewest samples that modeling proceeds on.
pub const MIN_SAMPLES: usize = 30;

/// Spacing of the forecast horizon: one hour.
pub const HORIZON_STEP_SECONDS: i64 = 3600;

/// Length of the forecast horizon: one week of hours.
pub const HORIZON_LEN: usize = 168;

/// Source column of the timestamp field.
pub const TIMESTAMP_COLUMN: usize = 1;

/// Source column of the value field.
pub const VALUE_COLUMN: usize = 7;

/// The pipeline's policy: the minimum sample count and the horizon's shape.
#[derive(Clone, Copy, Debug, PartialEq, Eq, Structural)]
pub struct PipelineConfig {
    pub min_samples: usize,
    pub horizon_step: i64,
    pub horizon_len: usize,
}

impl Default for PipelineConfig {
    /// Thirty samples at least; one week of hourly forecasts.
    fn default() -> (r: PipelineConfig)
        ensures
            r.min_samples == MIN_SAMPLES,
            r.horizon_step == HORIZON_STEP_SECONDS,
            r.horizon_len == HORIZON_LEN,
    {
        PipelineConfig {
            min_samples: MIN_SAMPLES,
            horizon_step: HORIZON_STEP_SECONDS,
            horizon_len: HORIZON_LEN,
        }
    }
}

} // verus!
