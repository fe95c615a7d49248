//! Dates and times as the mowers report them and as they are published.
use vstd::prelude::*;

verus! {

/// The last millisecond, counted from 1970-01-01T00:00:00, that a civil
/// datetime can hold: 9999-12-31T23:59:59.999.
pub const MAX_MOWER_MILLIS: u64 = 253_402_300_799_999;

/// The text of the civil datetime `millis` milliseconds after
/// 1970-01-01T00:00:00, as `jiff` displays a `civil::DateTime`.
pub uninterp spec fn mower_datetime_text(millis: nat) -> Seq<char>;

/// Calls `jiff::civil::DateTime::checked_add` on 1970-01-01T00:00:00 with
/// `millis` milliseconds, and displays the sum. The sum exists exactly when it
/// stays within `jiff`'s last datetime, 9999-12-31T23:59:59.999999999, which
/// the `requires` keeps to; the text is named, not stated.
#[verifier::external_body]
pub(crate) fn mower_datetime(millis: u64) -> (text: String)
    requires
        millis <= MAX_MOWER_MILLIS,
    ensures
        text@ == mower_datetime_text(millis as nat),
{
    jiff::civil::DateTime::constant(1970, 1, 1, 0, 0, 0, 0)
        .checked_add(std::time::Duration::from_millis(millis))
        .expect("adding milliseconds to epoch should never overflow?")
        .to_string()
}

/// Whether a text has the shape in which `jiff` displays a timestamp: the
/// UTC date (at least four digits of year, month, day), `T`, the time of day
/// (hours, minutes, seconds and any fraction) and a closing `Z`, so at least
/// twenty characters.
pub open spec fn is_utc_timestamp_text(text: Seq<char>) -> bool {
    &&& text.len() >= 20
    &&& text.last() == 'Z'
}

/// Calls `jiff::Timestamp::now` and displays it: the time of the call, which
/// is not stated, written as the UTC date, `T`, the time and `Z`.
#[verifier::external_body]
pub(crate) fn current_time_text() -> (text: String)
    ensures
        is_utc_timestamp_text(text@),
{
    jiff::Timestamp::now().to_string()
}

} // verus!
