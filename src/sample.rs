//! Observations: raw rows as read from a table, and the samples kept from them.
//!
//! A sample's value is an IEEE-754 double held by its bit pattern, so that the
//! positivity filter and the value range are exact integer facts.
use vstd::prelude::*;

verus! {

/// Bit pattern of the double `+inf`, the largest pattern of a positive double.
pub const POSITIVE_INFINITY_BITS: u64 = 0x7ff0_0000_0000_0000;

/// The double with bit pattern `bits` is greater than zero: the sign bit is
/// clear, the pattern is not `+0.0`, and it is not a NaN (whose patterns lie
/// above that of `+inf`). Among such patterns the integer order of the bits
/// is the numeric order of the doubles.
pub open spec fn is_positive_bits(bits: u64) -> bool {
    0 < bits <= POSITIVE_INFINITY_BITS
}

/// Tells whether the double with bit pattern `bits` is greater than zero.
pub fn value_is_positive(bits: u64) -> (r: bool)
    ensures
        r == is_positive_bits(bits),
{
    0 < bits && bits <= POSITIVE_INFINITY_BITS
}

/// One accepted observation: unix seconds and the bit pattern of its value.
#[derive(Clone, Copy, Debug, PartialEq, Eq, Structural)]
pub struct Sample {
    pub timestamp: i64,
    pub value_bits: u64,
}

impl Sample {
    /// A sample's value is strictly positive.
    pub open spec fn wf(&self) -> bool {
        is_positive_bits(self.value_bits)
    }
}

/// Every sample of `s` has a strictly positive value.
pub open spec fn all_positive(s: Seq<Sample>) -> bool {
    forall|i: int| 0 <= i < s.len() ==> (#[trigger] s[i]).wf()
}

/// What the value field of a row held once read as a number.
#[derive(Clone, Copy, Debug, PartialEq, Eq, Structural)]
pub enum ValueReading {
    /// The row has no field at the value column.
    Missing,
    /// The field is not a number.
    Malformed,
    /// The field read as the double with this bit pattern.
    Number(u64),
}

/// One row of the source table, reduced to its two fields of interest.
#[derive(Clone, Debug)]
pub struct RawRecord {
    /// The field at the timestamp column, untrimmed; `None` where the row is too short.
    pub timestamp_text: Option<String>,
    pub value: ValueReading,
}

/// Why a row was left out of the training set.
#[derive(Clone, Copy, Debug, PartialEq, Eq, Structural)]
pub enum SkipReason {
    MissingField,
    MalformedTimestamp,
    MalformedValue,
    NonPositiveValue,
}

/// A row left out, by its position in the source.
#[derive(Clone, Copy, Debug, PartialEq, Eq, Structural)]
pub struct SkippedRow {
    pub row: usize,
    pub reason: SkipReason,
}

} // verus!
