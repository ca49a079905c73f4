//! The wall clock.

use vstd::prelude::*;

verus! {

/// The current time as an RFC 3339 text: the system clock read by
/// `SystemTime::now`, turned into a `chrono::DateTime` by
/// `DateTime::from_timestamp` and written by `DateTime::to_rfc3339`. `None`
/// where the clock reads before 1970 or beyond what `chrono` can hold. The
/// text depends on when it is asked for, so nothing is claimed of it.
#[verifier::external_body]
pub(crate) fn utc_now_rfc3339() -> (r: Option<String>) {
    let now = std::time::SystemTime::now().duration_since(std::time::UNIX_EPOCH).ok()?;
    let seconds = i64::try_from(now.as_secs()).ok()?;
    let stamp = chrono::DateTime::from_timestamp(seconds, now.subsec_nanos())?;
    Some(stamp.to_rfc3339())
}

} // verus!
