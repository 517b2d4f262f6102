use vstd::prelude::*;

verus! {

/// Whether a text has the length and the ending of a moment in UTC written
/// as RFC 3339 text: a date and a time of day, and the offset of UTC behind them.
pub open spec fn is_utc_stamp(text: Seq<char>) -> bool {
    text.len() >= 25 && text.subrange(text.len() - 6, text.len() as int) == "+00:00"@
}

/// The present moment in UTC, written as RFC 3339 text by
/// `chrono::Utc::now().to_rfc3339()`.
///
/// Trusted: the text holds at least a year of four digits, month, day, hour,
/// minute and second with their separators, and ends with the offset of UTC
/// written with sign and colon. Which moment it names is not claimed: it
/// changes from call to call. The clock is taken to stand at or after the
/// start of 1970; before that `now` panics.
#[verifier::external_body]
pub(crate) fn utc_now_rfc3339() -> (now: String)
    ensures
        is_utc_stamp(now@),
{
    chrono::Utc::now().to_rfc3339()
}

} // verus!
