//! The current time.

use vstd::prelude::*;

verus! {

/// `Utc::now().timestamp_millis()` of `chrono`: the milliseconds since the Unix epoch. The outside
/// function does not return for a time before the epoch. Nothing else is known of the time.
#[verifier::external_body]
pub(crate) fn now_millis() -> (r: i64)
    ensures
        0 <= r,
{
    chrono::Utc::now().timestamp_millis()
}

/// `Utc::now().format(..)` of `chrono`: the date and time as text. Nothing is known of the text,
/// since it depends on the time alone.
#[verifier::external_body]
pub(crate) fn now_text() -> String {
    chrono::Utc::now().format("%Y-%m-%d %H:%M:%S").to_string()
}

/// Whether a time in milliseconds is one that `chrono` holds: from the start of the year -262143 to
/// the end of the year 262142.
pub open spec fn is_time(millis: i64) -> bool {
    -8_334_601_228_800_000 <= millis <= 8_210_266_876_799_999
}

/// `DateTime::from_timestamp_millis` of `chrono`: the time of a number of milliseconds since the
/// Unix epoch, if it is in range. It is given by its milliseconds again.
#[verifier::external_body]
pub(crate) fn time_from_millis(millis: i64) -> (r: Option<i64>)
    ensures
        r == if is_time(millis) {
            Some(millis)
        } else {
            None
        },
{
    match chrono::DateTime::<chrono::Utc>::from_timestamp_millis(millis) {
        Some(time) => Some(time.timestamp_millis()),
        None => None,
    }
}

} // verus!
