//! The wall clock, read through chrono.
use vstd::prelude::*;

verus! {

/// Whether `c` is one of the ASCII digits `0` to `9`.
pub open spec fn is_ascii_digit(c: char) -> bool {
    '0' <= c && c <= '9'
}

/// Whether `s` has the shape of a `%Y%m%d_%H%M%S` stamp: it ends in eight
/// digits, an underscore and six digits (the last four digits of the year,
/// month, day, hour, minute, second); anything before those fifteen
/// characters is the sign and leading digits of a year outside `0..=9999`.
pub open spec fn is_compact_stamp(s: Seq<char>) -> bool {
    &&& s.len() >= 15
    &&& s[s.len() - 7] == '_'
    &&& forall|i: int| s.len() - 15 <= i < s.len() && i != s.len() - 7 ==> is_ascii_digit(#[trigger] s[i])
    &&& s.len() > 15 ==> (s[0] == '+' || s[0] == '-')
    &&& forall|i: int| 1 <= i < s.len() - 15 ==> is_ascii_digit(#[trigger] s[i])
}

/// The current UTC time as `YYYYmmdd_HHMMSS`
/// (`chrono::Utc::now().format("%Y%m%d_%H%M%S")`).
///
/// Claims only the shape of the result (chrono writes the month, day, hour,
/// minute and second as two digits each, and the year as four zero-padded
/// digits, or with a sign and at least four digits outside `0..=9999`); the
/// digits themselves depend on the time of the call.
#[verifier::external_body]
pub(crate) fn compact_utc_timestamp() -> (r: String)
    ensures
        is_compact_stamp(r@),
{
    chrono::Utc::now().format("%Y%m%d_%H%M%S").to_string()
}

/// The current UTC time in milliseconds since the Unix epoch
/// (`chrono::Utc::now().timestamp_millis()`).
///
/// Nothing is claimed of the result: it depends on the time of the call.
#[verifier::external_body]
pub(crate) fn now_millis() -> (r: i64) {
    chrono::Utc::now().timestamp_millis()
}

} // verus!
