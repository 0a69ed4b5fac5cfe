//! Upload timestamps.  A point in time is carried as seconds since the
//! Unix epoch; only the conversion from the log's RFC 3339 text to that
//! number is delegated to an outside crate.

use vstd::prelude::*;

verus! {

/// The epoch second that an RFC 3339 timestamp text denotes, or `None`
/// where the text is not a valid timestamp.  The value depends on the
/// text alone.
pub uninterp spec fn rfc3339_epoch_of(s: Seq<char>) -> Option<int>;

/// Relies on chrono's `DateTime::parse_from_rfc3339` (and `timestamp`
/// to read the result out as epoch seconds): the parse is a pure
/// function of the text.
#[verifier::external_body]
pub fn parse_rfc3339_epoch(s: &str) -> (r: Option<i64>)
    ensures
        match r {
            Some(t) => rfc3339_epoch_of(s@) == Some(t as int),
            None => rfc3339_epoch_of(s@) is None,
        },
{
    match chrono::DateTime::parse_from_rfc3339(s) {
        Ok(d) => Some(d.timestamp()),
        Err(_) => None,
    }
}

/// Seconds in the default rolling purge window of one day.
pub const PURGE_WINDOW_SECONDS: i64 = 86400;

/// The default cutoff: one day before the given moment.  Records
/// uploaded strictly after the cutoff fall inside the purge window.
pub fn default_cutoff(now_epoch: i64) -> (r: i64)
    requires
        i64::MIN + PURGE_WINDOW_SECONDS <= now_epoch,
    ensures
        r == now_epoch - PURGE_WINDOW_SECONDS,
{
    now_epoch - PURGE_WINDOW_SECONDS
}

} // verus!
