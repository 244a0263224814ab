//! The failures of the forecasting pipeline; each one ends a run.
use vstd::prelude::*;

verus! {

/// Why a training set could not be fitted.
#[derive(Clone, Debug, PartialEq, Eq)]
pub enum FitFailure {
    /// The sample at `index` is not later than the one before it.
    NotChronological { index: usize },
    /// The forecasting engine refused the data; its message, verbatim.
    Engine(String),
}

/// Why a forecast could not be obtained.
#[derive(Clone, Debug, PartialEq, Eq)]
pub enum PredictFailure {
    /// A forecast sequence whose length differs from the horizon's.
    LengthMismatch { expected: usize, found: usize },
    /// The forecasting engine failed; its message, verbatim.
    Engine(String),
}

/// Why the comparison chart could not be drawn.
#[derive(Clone, Debug, PartialEq, Eq)]
pub enum RenderFailure {
    /// There is no actual observation to draw.
    EmptySeries,
    /// The time axis cannot be widened to a non-empty span.
    DegenerateRange,
    /// The drawing backend failed; its message.
    Backend(String),
}

#[derive(Clone, Debug, PartialEq, Eq)]
pub enum PipelineError {
    /// The source could not be read, or the chart could not be written.
    Io(String),
    /// No row of the source was accepted.
    EmptyDataset,
    /// Fewer samples than the configured minimum.
    InsufficientData { found: usize, required: usize },
    Fit(FitFailure),
    Predict(PredictFailure),
    Render(RenderFailure),
    /// A horizon timestamp would not fit in 64 bits.
    HorizonOutOfRange,
}

} // verus!
