//! Points in time, as the program records them, and their calendar date.

use vstd::prelude::*;

verus! {

/// A point in time: seconds since the Unix epoch and the nanoseconds past
/// that second, as `chrono` reports them for a UTC date-time.
#[derive(Debug, Clone, Copy, PartialEq, Eq, Structural)]
pub struct Timestamp {
    pub secs: i64,
    pub nanos: u32,
}

/// `chrono::Utc::now`: the current UTC time, read as a timestamp. It depends
/// on the system clock, so nothing is stated of the value returned.
#[verifier::external_body]
pub fn now() -> Timestamp {
    let t = chrono::Utc::now();
    Timestamp { secs: t.timestamp(), nanos: t.timestamp_subsec_nanos() }
}

/// The text that `chrono` writes for the timestamp `(secs, nanos)` under the
/// format `%Y-%m-%d` (year, month and day of the UTC date).
pub uninterp spec fn ymd_date_text(secs: i64, nanos: u32) -> Seq<char>;

/// `chrono::DateTime::<Utc>::from_timestamp` followed by `format("%Y-%m-%d")`:
/// the UTC calendar date of `ts`. The text is a function of the timestamp
/// alone and is named `ymd_date_text`; what it holds is not stated here.
/// For a timestamp `chrono` cannot represent, the text is empty.
#[verifier::external_body]
pub fn format_ymd(ts: &Timestamp) -> (s: String)
    ensures
        s@ == ymd_date_text(ts.secs, ts.nanos),
{
    match chrono::DateTime::from_timestamp(ts.secs, ts.nanos) {
        Some(dt) => dt.format("%Y-%m-%d").to_string(),
        None => String::new(),
    }
}

} // verus!
