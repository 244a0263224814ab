//! Ingestion: rows to samples, with the positivity filter, the minimum-count
//! policy and the chronological order that fitting needs.
use vstd::prelude::*;
use crate::config::PipelineConfig;
use crate::error::{FitFailure, PipelineError};
use crate::sample::{
    all_positive, is_positive_bits, value_is_positive, RawRecord, Sample, SkipReason,
    SkippedRow, ValueReading,
};
use crate::time_text::{
    naive_seconds_of, parse_datetime_to_timestamp, trim_text, trimmed_of, TIMESTAMP_FORMAT,
};

verus! {

/// What becomes of a row with both fields present, once its timestamp text
/// has been read (`None`: it did not read): a malformed timestamp is reported
/// before a malformed value, and that before a value that is not positive.
pub open spec fn parsed_row_outcome(ts: Option<i64>, value: ValueReading) -> Result<
    Sample,
    SkipReason,
> {
    match ts {
        None => Err(SkipReason::MalformedTimestamp),
        Some(t) => match value {
            ValueReading::Number(bits) => {
                if is_positive_bits(bits) {
                    Ok(Sample { timestamp: t, value_bits: bits })
                } else {
                    Err(SkipReason::NonPositiveValue)
                }
            },
            _ => Err(SkipReason::MalformedValue),
        },
    }
}

/// What becomes of one row: the sample it yields, or why it is skipped.
/// A missing field is reported first; the timestamp is read from its trimmed
/// text under the fixed layout.
pub open spec fn row_outcome(r: RawRecord) -> Result<Sample, SkipReason> {
    match r.timestamp_text {
        None => Err(SkipReason::MissingField),
        Some(text) => {
            if r.value is Missing {
                Err(SkipReason::MissingField)
            } else {
                parsed_row_outcome(
                    naive_seconds_of(trimmed_of(text@), TIMESTAMP_FORMAT@),
                    r.value,
                )
            }
        },
    }
}

/// The samples that `rows` yield, in row order.
pub open spec fn accepted_samples(rows: Seq<RawRecord>) -> Seq<Sample>
    decreases rows.len(),
{
    if rows.len() == 0 {
        Seq::empty()
    } else {
        let before = accepted_samples(rows.drop_last());
        match row_outcome(rows.last()) {
            Ok(s) => before.push(s),
            Err(_) => before,
        }
    }
}

/// The rows of `rows` that are skipped, each with its position and reason.
pub open spec fn skipped_rows(rows: Seq<RawRecord>) -> Seq<SkippedRow>
    decreases rows.len(),
{
    if rows.len() == 0 {
        Seq::empty()
    } else {
        let before = skipped_rows(rows.drop_last());
        match row_outcome(rows.last()) {
            Ok(_) => before,
            Err(reason) => before.push(SkippedRow { row: (rows.len() - 1) as usize, reason }),
        }
    }
}

/// Each sample is later than the one before it.
pub open spec fn strictly_increasing(s: Seq<Sample>) -> bool {
    forall|i: int| 0 < i < s.len() ==> #[trigger] s[i].timestamp > s[i - 1].timestamp
}

/// `index` is where `s` first fails to be strictly increasing.
pub open spec fn first_unordered(s: Seq<Sample>, index: int) -> bool {
    &&& 0 < index < s.len()
    &&& s[index].timestamp <= s[index - 1].timestamp
    &&& strictly_increasing(s.take(index))
}

/// Every sample that a row yields has a strictly positive value.
pub proof fn lemma_accepted_positive(rows: Seq<RawRecord>)
    ensures
        all_positive(accepted_samples(rows)),
    decreases rows.len(),
{
    if rows.len() > 0 {
        lemma_accepted_positive(rows.drop_last());
    }
}

/// The samples and the skipped rows of one source.
#[derive(Clone, Debug)]
pub struct Ingested {
    pub samples: Vec<Sample>,
    pub skipped: Vec<SkippedRow>,
}

/// Decides what becomes of a row with both fields present, given what its
/// timestamp text read as.
pub fn classify_parsed(ts: Option<i64>, value: ValueReading) -> (o: Result<Sample, SkipReason>)
    ensures
        o == parsed_row_outcome(ts, value),
{
    match ts {
        None => Err(SkipReason::MalformedTimestamp),
        Some(t) => match value {
            ValueReading::Number(bits) => {
                if value_is_positive(bits) {
                    Ok(Sample { timestamp: t, value_bits: bits })
                } else {
                    Err(SkipReason::NonPositiveValue)
                }
            },
            _ => Err(SkipReason::MalformedValue),
        },
    }
}

/// Decides what becomes of one row.
pub fn classify_row(r: &RawRecord) -> (o: Result<Sample, SkipReason>)
    ensures
        o == row_outcome(*r),
{
    match &r.timestamp_text {
        None => Err(SkipReason::MissingField),
        Some(text) => {
            if let ValueReading::Missing = r.value {
                return Err(SkipReason::MissingField);
            }
            let trimmed = trim_text(text.as_str());
            classify_parsed(parse_datetime_to_timestamp(trimmed), r.value)
        },
    }
}

/// Turns rows into samples in row order, keeping each row whose timestamp and
/// value both read and whose value is positive; the others are listed with
/// their reason. Fails with `EmptyDataset` exactly when no row is kept.
pub fn ingest(records: &Vec<RawRecord>) -> (r: Result<Ingested, PipelineError>)
    ensures
        r is Ok <==> accepted_samples(records@).len() > 0,
        r is Err ==> r == Err::<Ingested, PipelineError>(PipelineError::EmptyDataset),
        r matches Ok(ing) ==> ing.samples@ == accepted_samples(records@) && ing.skipped@
            == skipped_rows(records@),
        r matches Ok(ing) ==> all_positive(ing.samples@),
{
    let mut samples: Vec<Sample> = Vec::new();
    let mut skipped: Vec<SkippedRow> = Vec::new();
    let n = records.len();
    for i in 0..n
        invariant
            n == records@.len(),
            samples@ == accepted_samples(records@.take(i as int)),
            skipped@ == skipped_rows(records@.take(i as int)),
    {
        assert(records@.take(i + 1).drop_last() == records@.take(i as int));
        match classify_row(&records[i]) {
            Ok(s) => samples.push(s),
            Err(reason) => skipped.push(SkippedRow { row: i, reason }),
        }
    }
    assert(records@.take(n as int) == records@);
    proof {
        lemma_accepted_positive(records@);
    }
    if samples.len() == 0 {
        Err(PipelineError::EmptyDataset)
    } else {
        Ok(Ingested { samples, skipped })
    }
}

/// Fails with `InsufficientData` exactly when there are fewer than `minimum`
/// samples; checked before any modeling work.
pub fn validate(samples: &Vec<Sample>, minimum: usize) -> (r: Result<(), PipelineError>)
    ensures
        r is Ok <==> samples@.len() >= minimum,
        r is Err ==> r == Err::<(), PipelineError>(
            PipelineError::InsufficientData { found: samples@.len() as usize, required: minimum },
        ),
{
    if samples.len() < minimum {
        Err(PipelineError::InsufficientData { found: samples.len(), required: minimum })
    } else {
        Ok(())
    }
}

/// Fails with a fit error naming the first sample that is not later than the
/// one before it; succeeds exactly when the timestamps strictly increase.
pub fn check_chronological(samples: &Vec<Sample>) -> (r: Result<(), PipelineError>)
    ensures
        r is Ok <==> strictly_increasing(samples@),
        r is Err ==> exists|k: usize|
            first_unordered(samples@, k as int) && r == Err::<(), PipelineError>(
                PipelineError::Fit(FitFailure::NotChronological { index: k }),
            ),
{
    let n = samples.len();
    if n == 0 {
        return Ok(());
    }
    let mut i: usize = 1;
    while i < n
        invariant
            n == samples@.len(),
            1 <= i <= n,
            strictly_increasing(samples@.take(i as int)),
        decreases n - i,
    {
        if samples[i].timestamp <= samples[i - 1].timestamp {
            assert(first_unordered(samples@, i as int));
            return Err(PipelineError::Fit(FitFailure::NotChronological { index: i }));
        }
        assert(strictly_increasing(samples@.take(i + 1))) by {
            assert forall|j: int| 0 < j < i + 1 implies #[trigger] samples@.take(i + 1)[j].timestamp
                > samples@.take(i + 1)[j - 1].timestamp by {
                if j < i {
                    assert(samples@.take(i as int)[j] == samples@[j]);
                    assert(samples@.take(i as int)[j - 1] == samples@[j - 1]);
                }
            }
        }
        i = i + 1;
    }
    assert(samples@.take(n as int) == samples@);
    Ok(())
}

/// Ingests the rows, then enforces the minimum sample count, then the strictly
/// increasing order of timestamps; the first failing stage decides the error.
pub fn prepare_training(records: &Vec<RawRecord>, config: &PipelineConfig) -> (r: Result<
    Ingested,
    PipelineError,
>)
    ensures
        accepted_samples(records@).len() == 0 ==> r == Err::<Ingested, PipelineError>(
            PipelineError::EmptyDataset,
        ),
        0 < accepted_samples(records@).len() < config.min_samples ==> r == Err::<
            Ingested,
            PipelineError,
        >(
            PipelineError::InsufficientData {
                found: accepted_samples(records@).len() as usize,
                required: config.min_samples,
            },
        ),
        accepted_samples(records@).len() > 0 && accepted_samples(records@).len()
            >= config.min_samples && !strictly_increasing(accepted_samples(records@)) ==> exists|
            k: usize,
        |
            first_unordered(accepted_samples(records@), k as int) && r == Err::<
                Ingested,
                PipelineError,
            >(PipelineError::Fit(FitFailure::NotChronological { index: k })),
        r is Ok <==> accepted_samples(records@).len() > 0 && accepted_samples(records@).len()
            >= config.min_samples && strictly_increasing(accepted_samples(records@)),
        r matches Ok(ing) ==> ing.samples@ == accepted_samples(records@) && ing.skipped@
            == skipped_rows(records@) && all_positive(ing.samples@),
{
    let ing = ingest(records)?;
    validate(&ing.samples, config.min_samples)?;
    check_chronological(&ing.samples)?;
    Ok(ing)
}

/// The training set as the engine takes it: timestamps, and the bit
/// patterns of the values, position for position.
pub fn training_columns(samples: &Vec<Sample>) -> (r: (Vec<i64>, Vec<u64>))
    ensures
        r.0@.len() == samples@.len(),
        r.1@.len() == samples@.len(),
        forall|i: int| 0 <= i < samples@.len() ==> #[trigger] r.0@[i] == samples@[i].timestamp,
        forall|i: int| 0 <= i < samples@.len() ==> #[trigger] r.1@[i] == samples@[i].value_bits,
{
    let mut timestamps: Vec<i64> = Vec::new();
    let mut values: Vec<u64> = Vec::new();
    let n = samples.len();
    for i in 0..n
        invariant
            n == samples@.len(),
            timestamps@.len() == i,
            values@.len() == i,
            forall|j: int| 0 <= j < i ==> #[trigger] timestamps@[j] == samples@[j].timestamp,
            forall|j: int| 0 <= j < i ==> #[trigger] values@[j] == samples@[j].value_bits,
    {
        timestamps.push(samples[i].timestamp);
        values.push(samples[i].value_bits);
    }
    (timestamps, values)
}

} // verus!
