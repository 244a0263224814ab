//! The forecast horizon: evenly spaced timestamps after the last observation.
use vstd::prelude::*;
use crate::config::PipelineConfig;
use crate::error::PipelineError;
use crate::sample::Sample;

verus! {

/// `count` timestamps, the `i`-th being `last + (i + 1) * step`.
pub open spec fn horizon_seq(last: int, step: int, count: nat) -> Seq<int> {
    Seq::new(count, |i: int| last + (i + 1) * step)
}

/// Every timestamp of the horizon fits in 64 bits.
pub open spec fn horizon_fits(last: int, step: int, count: nat) -> bool {
    count == 0 || (i64::MIN <= last + step <= i64::MAX && i64::MIN <= last + count * step
        <= i64::MAX)
}

/// The horizon's entries lie between its first and its last.
proof fn lemma_between_ends(last: int, step: int, count: nat, k: int)
    requires
        horizon_fits(last, step, count),
        1 <= k <= count,
    ensures
        i64::MIN <= last + k * step <= i64::MAX,
{
    if step >= 0 {
        assert(step <= k * step <= count * step) by (nonlinear_arith)
            requires
                step >= 0,
                1 <= k <= count,
        ;
    } else {
        assert(step >= k * step >= count * step) by (nonlinear_arith)
            requires
                step < 0,
                1 <= k <= count,
        ;
    }
}

/// The horizon after `last`: `count` timestamps spaced `step` seconds apart,
/// the first one `step` after `last`.
pub fn generate(last: i64, step: i64, count: usize) -> (r: Vec<i64>)
    requires
        horizon_fits(last as int, step as int, count as nat),
    ensures
        r@.len() == count,
        forall|i: int| 0 <= i < count ==> r@[i] == horizon_seq(last as int, step as int, count as nat)[i],
{
    let mut r: Vec<i64> = Vec::new();
    let mut cur: i64 = last;
    let mut i: usize = 0;
    while i < count
        invariant
            i <= count,
            horizon_fits(last as int, step as int, count as nat),
            cur == last + i * step,
            r@.len() == i,
            forall|j: int| 0 <= j < i ==> r@[j] == last + (j + 1) * step,
        decreases count - i,
    {
        proof {
            lemma_between_ends(last as int, step as int, count as nat, i + 1);
            assert(last + (i + 1) * step == last + i * step + step) by (nonlinear_arith);
        }
        cur = cur + step;
        r.push(cur);
        i = i + 1;
    }
    r
}

/// Tells whether every timestamp of the horizon fits in 64 bits.
pub fn horizon_in_range(last: i64, step: i64, count: usize) -> (r: bool)
    ensures
        r == horizon_fits(last as int, step as int, count as nat),
{
    if count == 0 {
        return true;
    }
    let first = last as i128 + step as i128;
    assert(-0xffff_ffff_ffff_ffff * 0x8000_0000_0000_0000 <= count * step
        <= 0xffff_ffff_ffff_ffff * 0x8000_0000_0000_0000) by (nonlinear_arith)
        requires
            0 <= count <= 0xffff_ffff_ffff_ffff,
            -0x8000_0000_0000_0000 <= step < 0x8000_0000_0000_0000,
    ;
    let span = count as i128 * step as i128;
    let end = last as i128 + span;
    i64::MIN as i128 <= first && first <= i64::MAX as i128 && i64::MIN as i128 <= end && end
        <= i64::MAX as i128
}

/// The horizon after the last training timestamp, under the configured step
/// and length. Fails with `EmptyDataset` on no samples, and with
/// `HorizonOutOfRange` exactly when some timestamp would not fit in 64 bits.
pub fn plan_horizon(training: &Vec<Sample>, config: &PipelineConfig) -> (r: Result<
    Vec<i64>,
    PipelineError,
>)
    ensures
        training@.len() == 0 ==> r == Err::<Vec<i64>, PipelineError>(PipelineError::EmptyDataset),
        training@.len() > 0 ==> {
            let last = training@.last().timestamp as int;
            let step = config.horizon_step as int;
            let count = config.horizon_len as nat;
            &&& r is Err <==> !horizon_fits(last, step, count)
            &&& r is Err ==> r == Err::<Vec<i64>, PipelineError>(PipelineError::HorizonOutOfRange)
            &&& r matches Ok(h) ==> h@.len() == count && forall|i: int|
                0 <= i < count ==> h@[i] == horizon_seq(last, step, count)[i]
        },
{
    if training.len() == 0 {
        return Err(PipelineError::EmptyDataset);
    }
    let last = training[training.len() - 1].timestamp;
    if !horizon_in_range(last, config.horizon_step, config.horizon_len) {
        return Err(PipelineError::HorizonOutOfRange);
    }
    Ok(generate(last, config.horizon_step, config.horizon_len))
}

} // verus!
