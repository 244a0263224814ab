//! The forecasting engine's side of the pipeline: the options it is configured
//! with, and forecast results aligned entry by entry with the horizon.
use vstd::prelude::*;
use crate::error::{PipelineError, PredictFailure};

verus! {

/// Shape of the trend curve.
#[derive(Clone, Copy, Debug, PartialEq, Eq, Structural)]
pub enum Growth {
    Linear,
    Logistic,
    Flat,
}

/// How seasonal effects combine with the trend.
#[derive(Clone, Copy, Debug, PartialEq, Eq, Structural)]
pub enum SeasonalityMode {
    Additive,
    Multiplicative,
}

/// Whether one seasonal component is used: left to the engine, or forced.
#[derive(Clone, Copy, Debug, PartialEq, Eq, Structural)]
pub enum SeasonalityToggle {
    Auto,
    Manual(bool),
}

/// The options the forecasting engine is configured with.
#[derive(Clone, Copy, Debug, PartialEq, Eq, Structural)]
pub struct ModelOptions {
    pub growth: Growth,
    pub seasonality_mode: SeasonalityMode,
    pub daily: SeasonalityToggle,
    pub weekly: SeasonalityToggle,
    pub yearly: SeasonalityToggle,
}

impl ModelOptions {
    /// Options for volatile hourly demand: a linear trend, multiplicative
    /// seasonality, daily and weekly components on, the yearly one off.
    pub fn hourly_demand() -> (r: ModelOptions)
        ensures
            r == (ModelOptions {
                growth: Growth::Linear,
                seasonality_mode: SeasonalityMode::Multiplicative,
                daily: SeasonalityToggle::Manual(true),
                weekly: SeasonalityToggle::Manual(true),
                yearly: SeasonalityToggle::Manual(false),
            }),
    {
        ModelOptions {
            growth: Growth::Linear,
            seasonality_mode: SeasonalityMode::Multiplicative,
            daily: SeasonalityToggle::Manual(true),
            weekly: SeasonalityToggle::Manual(true),
            yearly: SeasonalityToggle::Manual(false),
        }
    }
}

/// One forecast entry: its horizon timestamp, the bit pattern of its point
/// estimate, and those of its interval bounds where the engine gave them.
#[derive(Clone, Copy, Debug, PartialEq, Eq, Structural)]
pub struct ForecastPoint {
    pub timestamp: i64,
    pub point_bits: u64,
    pub lower_bits: Option<u64>,
    pub upper_bits: Option<u64>,
}

/// Entry `i` of an optional bound sequence.
pub open spec fn bound_at(bound: Option<Vec<u64>>, i: int) -> Option<u64> {
    match bound {
        Some(b) => Some(b@[i]),
        None => None,
    }
}

/// The optional bound sequence, where given, has `len` entries.
pub open spec fn bound_len_is(bound: Option<Vec<u64>>, len: nat) -> bool {
    match bound {
        Some(b) => b@.len() == len,
        None => true,
    }
}

/// The length of the first sequence among the point estimates and the given
/// bounds whose length is not `len`.
pub open spec fn first_mismatch(
    len: nat,
    point: Seq<u64>,
    lower: Option<Vec<u64>>,
    upper: Option<Vec<u64>>,
) -> nat {
    if point.len() != len {
        point.len()
    } else if !bound_len_is(lower, len) {
        lower.unwrap()@.len()
    } else {
        upper.unwrap()@.len()
    }
}

fn bound_len_matches(bound: &Option<Vec<u64>>, len: usize) -> (r: bool)
    ensures
        r == bound_len_is(*bound, len as nat),
{
    match bound {
        Some(b) => b.len() == len,
        None => true,
    }
}

/// Pairs each horizon timestamp with its own forecast entry. Fails with a
/// length mismatch, naming the first offending length, exactly when the point
/// estimates or a given bound sequence differ in length from the horizon.
pub fn align_forecast(
    horizon: &Vec<i64>,
    point: &Vec<u64>,
    lower: &Option<Vec<u64>>,
    upper: &Option<Vec<u64>>,
) -> (r: Result<Vec<ForecastPoint>, PipelineError>)
    ensures
        r is Ok <==> point@.len() == horizon@.len() && bound_len_is(*lower, horizon@.len())
            && bound_len_is(*upper, horizon@.len()),
        r is Err ==> r == Err::<Vec<ForecastPoint>, PipelineError>(
            PipelineError::Predict(
                PredictFailure::LengthMismatch {
                    expected: horizon@.len() as usize,
                    found: first_mismatch(horizon@.len(), point@, *lower, *upper) as usize,
                },
            ),
        ),
        r matches Ok(f) ==> f@.len() == horizon@.len() && forall|i: int|
            0 <= i < horizon@.len() ==> #[trigger] f@[i] == (ForecastPoint {
                timestamp: horizon@[i],
                point_bits: point@[i],
                lower_bits: bound_at(*lower, i),
                upper_bits: bound_at(*upper, i),
            }),
{
    let n = horizon.len();
    if point.len() != n {
        return Err(
            PipelineError::Predict(
                PredictFailure::LengthMismatch { expected: n, found: point.len() },
            ),
        );
    }
    if !bound_len_matches(lower, n) {
        let found = match lower {
            Some(b) => b.len(),
            None => n,
        };
        return Err(PipelineError::Predict(PredictFailure::LengthMismatch { expected: n, found }));
    }
    if !bound_len_matches(upper, n) {
        let found = match upper {
            Some(b) => b.len(),
            None => n,
        };
        return Err(PipelineError::Predict(PredictFailure::LengthMismatch { expected: n, found }));
    }
    let mut out: Vec<ForecastPoint> = Vec::new();
    for i in 0..n
        invariant
            n == horizon@.len(),
            point@.len() == n,
            bound_len_is(*lower, n as nat),
            bound_len_is(*upper, n as nat),
            out@.len() == i,
            forall|j: int|
                0 <= j < i ==> #[trigger] out@[j] == (ForecastPoint {
                    timestamp: horizon@[j],
                    point_bits: point@[j],
                    lower_bits: bound_at(*lower, j),
                    upper_bits: bound_at(*upper, j),
                }),
    {
        let lower_bits = match lower {
            Some(b) => Some(b[i]),
            None => None,
        };
        let upper_bits = match upper {
            Some(b) => Some(b[i]),
            None => None,
        };
        out.push(ForecastPoint { timestamp: horizon[i], point_bits: point[i], lower_bits, upper_bits });
    }
    Ok(out)
}

} // verus!
