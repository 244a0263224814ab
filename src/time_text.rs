//! Wall-clock timestamp text: parsing into unix seconds and formatting back,
//! both through chrono's naive (time-zone free) date-time type.
use vstd::prelude::*;

verus! {

/// The fixed layout of a timestamp field: `YYYY-MM-DD HH:MM`.
pub const TIMESTAMP_FORMAT: &'static str = "%Y-%m-%d %H:%M";

/// Unix seconds of the naive date-time that chrono reads from `text` under the
/// strftime layout `fmt`, or `None` where chrono rejects the text.
pub uninterp spec fn naive_seconds_of(text: Seq<char>, fmt: Seq<char>) -> Option<i64>;

/// The text that chrono writes, under the strftime layout `fmt`, for the naive
/// date-time `secs` unix seconds after the epoch, or `None` where that
/// instant lies outside chrono's calendar.
pub uninterp spec fn naive_text_of(secs: i64, fmt: Seq<char>) -> Option<Seq<char>>;

/// What `str::trim` leaves of `text`: leading and trailing white space removed.
pub uninterp spec fn trimmed_of(text: Seq<char>) -> Seq<char>;

/// Relies on `chrono::NaiveDateTime::parse_from_str` (and `and_utc().timestamp()`
/// to count its seconds): a result fixed by the text and the layout alone,
/// with no time zone involved.
#[verifier::external_body]
fn parse_naive_seconds(text: &str, fmt: &str) -> (r: Option<i64>)
    ensures
        r == naive_seconds_of(text@, fmt@),
{
    match chrono::NaiveDateTime::parse_from_str(text, fmt) {
        Ok(dt) => Some(dt.and_utc().timestamp()),
        Err(_) => None,
    }
}

/// Relies on `chrono::DateTime::from_timestamp` (and `naive_utc().format(..)`
/// to write it): `None` outside chrono's range, else the formatted text,
/// fixed by the seconds and the layout alone. Writing a layout that chrono
/// cannot render panics in `to_string`, so only the fixed layout is taken.
#[verifier::external_body]
fn format_naive_seconds(secs: i64, fmt: &str) -> (r: Option<String>)
    requires
        fmt@ == TIMESTAMP_FORMAT@,
    ensures
        r matches Some(s) ==> naive_text_of(secs, fmt@) == Some(s@),
        r is None ==> naive_text_of(secs, fmt@) is None,
{
    match chrono::DateTime::from_timestamp(secs, 0) {
        Some(dt) => Some(dt.naive_utc().format(fmt).to_string()),
        None => None,
    }
}

/// Relies on `str::trim`: the text without its leading and trailing white space.
#[verifier::external_body]
pub(crate) fn trim_text(text: &str) -> (r: &str)
    ensures
        r@ == trimmed_of(text@),
{
    text.trim()
}

/// Reads a `YYYY-MM-DD HH:MM` wall-clock time as unix seconds, taking the
/// wall clock as UTC so that no local offset shifts the result.
pub fn parse_datetime_to_timestamp(text: &str) -> (r: Option<i64>)
    ensures
        r == naive_seconds_of(text@, TIMESTAMP_FORMAT@),
{
    parse_naive_seconds(text, TIMESTAMP_FORMAT)
}

/// Writes unix seconds back as `YYYY-MM-DD HH:MM` wall-clock text.
pub fn format_timestamp(secs: i64) -> (r: Option<String>)
    ensures
        r matches Some(s) ==> naive_text_of(secs, TIMESTAMP_FORMAT@) == Some(s@),
        r is None ==> naive_text_of(secs, TIMESTAMP_FORMAT@) is None,
{
    format_naive_seconds(secs, TIMESTAMP_FORMAT)
}

} // verus!
