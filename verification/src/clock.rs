use vstd::prelude::*;

verus! {

/// Relies on `chrono::Utc::now` and `chrono::DateTime::to_rfc3339_opts`:
/// the current UTC wall-clock time rendered as an RFC 3339 timestamp with
/// millisecond precision and a `Z` suffix.  This is the shape task ids
/// take; within one process two calls a millisecond apart differ.  The
/// value depends on the clock, so nothing is assumed about it.  `Utc::now`
/// itself panics if the system clock is set before the Unix epoch; that is
/// environmental, and no `requires` can exclude it.
#[verifier::external_body]
pub(crate) fn date_string() -> String {
    chrono::Utc::now().to_rfc3339_opts(chrono::SecondsFormat::Millis, true)
}

} // verus!
