//! Axis ranges of the actual-versus-predicted chart.
//!
//! The time axis runs from the first observation to the later of the last
//! observation and the last forecast entry; the value axis spans the observed
//! values only. An empty span is widened to the smallest non-empty one.
use vstd::prelude::*;
use crate::error::{PipelineError, RenderFailure};
use crate::forecast::ForecastPoint;
use crate::sample::{all_positive, Sample};

verus! {

/// Axis ranges: unix seconds across, bit patterns of non-negative doubles up.
#[derive(Clone, Copy, Debug, PartialEq, Eq, Structural)]
pub struct ChartBounds {
    pub x_lo: i64,
    pub x_hi: i64,
    pub y_lo_bits: u64,
    pub y_hi_bits: u64,
}

/// The smallest value pattern of a non-empty series.
pub open spec fn min_value_bits(s: Seq<Sample>) -> u64
    decreases s.len(),
{
    if s.len() <= 1 {
        s[0].value_bits
    } else {
        let m = min_value_bits(s.drop_last());
        if s.last().value_bits < m {
            s.last().value_bits
        } else {
            m
        }
    }
}

/// The largest value pattern of a non-empty series.
pub open spec fn max_value_bits(s: Seq<Sample>) -> u64
    decreases s.len(),
{
    if s.len() <= 1 {
        s[0].value_bits
    } else {
        let m = max_value_bits(s.drop_last());
        if s.last().value_bits > m {
            s.last().value_bits
        } else {
            m
        }
    }
}

/// Where the time axis would end before any widening.
pub open spec fn x_end(actual: Seq<Sample>, forecast: Seq<ForecastPoint>) -> i64 {
    if forecast.len() > 0 && forecast.last().timestamp > actual.last().timestamp {
        forecast.last().timestamp
    } else {
        actual.last().timestamp
    }
}

/// The chart's axis ranges, or why there are none.
pub open spec fn chart_bounds_of(actual: Seq<Sample>, forecast: Seq<ForecastPoint>) -> Result<
    ChartBounds,
    PipelineError,
> {
    if actual.len() == 0 {
        Err(PipelineError::Render(RenderFailure::EmptySeries))
    } else {
        let x_lo = actual[0].timestamp;
        let end = x_end(actual, forecast);
        let lo = min_value_bits(actual);
        let hi = max_value_bits(actual);
        let y_lo_bits = if lo == hi {
            (lo - 1) as u64
        } else {
            lo
        };
        if end > x_lo {
            Ok(ChartBounds { x_lo, x_hi: end, y_lo_bits, y_hi_bits: hi })
        } else if x_lo < i64::MAX {
            Ok(ChartBounds { x_lo, x_hi: (x_lo + 1) as i64, y_lo_bits, y_hi_bits: hi })
        } else {
            Err(PipelineError::Render(RenderFailure::DegenerateRange))
        }
    }
}

/// In a non-empty series of positive values the smallest pattern is positive
/// and no larger than the largest.
proof fn lemma_value_range(s: Seq<Sample>)
    requires
        s.len() > 0,
        all_positive(s),
    ensures
        0 < min_value_bits(s) <= max_value_bits(s),
    decreases s.len(),
{
    if s.len() > 1 {
        assert(s.drop_last()[0] == s[0]);
        lemma_value_range(s.drop_last());
        assert(s[s.len() - 1].wf());
    }
}

/// In a series of one repeated value, that value is both extremes.
proof fn lemma_flat_extremes(s: Seq<Sample>, v: u64)
    requires
        s.len() > 0,
        forall|i: int| 0 <= i < s.len() ==> (#[trigger] s[i]).value_bits == v,
    ensures
        min_value_bits(s) == v,
        max_value_bits(s) == v,
    decreases s.len(),
{
    if s.len() > 1 {
        assert forall|i: int| 0 <= i < s.len() - 1 implies (#[trigger] s.drop_last()[i]).value_bits
            == v by {
            assert(s.drop_last()[i] == s[i]);
        }
        lemma_flat_extremes(s.drop_last(), v);
        assert(s.last() == s[s.len() - 1]);
    }
}

/// A series of positive values whose first timestamp is below the largest
/// one gets a chart whose both spans are non-empty.
pub proof fn lemma_bounds_non_empty(actual: Seq<Sample>, forecast: Seq<ForecastPoint>)
    requires
        actual.len() > 0,
        all_positive(actual),
        actual[0].timestamp < i64::MAX,
    ensures
        chart_bounds_of(actual, forecast) matches Ok(b) && b.x_lo < b.x_hi && b.y_lo_bits
            < b.y_hi_bits,
{
    lemma_value_range(actual);
}

/// A series whose values are all the same still gets a chart: its value span
/// falls back to the one step from the next smaller double up to that value,
/// and no render error comes of it.
pub proof fn lemma_flat_series_charts(
    actual: Seq<Sample>,
    forecast: Seq<ForecastPoint>,
    v: u64,
)
    requires
        actual.len() > 0,
        all_positive(actual),
        actual[0].timestamp < i64::MAX,
        forall|i: int| 0 <= i < actual.len() ==> (#[trigger] actual[i]).value_bits == v,
    ensures
        chart_bounds_of(actual, forecast) matches Ok(b) && b.y_lo_bits == v - 1 && b.y_hi_bits
            == v && b.x_lo < b.x_hi,
{
    lemma_flat_extremes(actual, v);
    lemma_bounds_non_empty(actual, forecast);
}

/// Computes the chart's axis ranges from the actual series and the aligned
/// forecast. Fails with `EmptySeries` on no observations, and with
/// `DegenerateRange` where the time span is empty and cannot be widened.
pub fn chart_bounds(actual: &Vec<Sample>, forecast: &Vec<ForecastPoint>) -> (r: Result<
    ChartBounds,
    PipelineError,
>)
    requires
        all_positive(actual@),
    ensures
        r == chart_bounds_of(actual@, forecast@),
        r matches Ok(b) ==> b.x_lo < b.x_hi && b.y_lo_bits < b.y_hi_bits,
{
    let n = actual.len();
    if n == 0 {
        return Err(PipelineError::Render(RenderFailure::EmptySeries));
    }
    let mut lo: u64 = actual[0].value_bits;
    let mut hi: u64 = actual[0].value_bits;
    for i in 1..n
        invariant
            n == actual@.len(),
            lo == min_value_bits(actual@.take(i as int)),
            hi == max_value_bits(actual@.take(i as int)),
    {
        assert(actual@.take(i + 1).drop_last() == actual@.take(i as int));
        let v = actual[i].value_bits;
        if v < lo {
            lo = v;
        }
        if v > hi {
            hi = v;
        }
    }
    assert(actual@.take(n as int) == actual@);
    proof {
        lemma_value_range(actual@);
    }
    let y_lo_bits = if lo == hi {
        lo - 1
    } else {
        lo
    };
    let x_lo = actual[0].timestamp;
    let mut end = actual[n - 1].timestamp;
    let m = forecast.len();
    if m > 0 && forecast[m - 1].timestamp > end {
        end = forecast[m - 1].timestamp;
    }
    if end > x_lo {
        Ok(ChartBounds { x_lo, x_hi: end, y_lo_bits, y_hi_bits: hi })
    } else if x_lo < i64::MAX {
        Ok(ChartBounds { x_lo, x_hi: x_lo + 1, y_lo_bits, y_hi_bits: hi })
    } else {
        Err(PipelineError::Render(RenderFailure::DegenerateRange))
    }
}

} // verus!
