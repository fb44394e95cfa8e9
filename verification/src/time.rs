//! Time handling. Timestamps run through the library as milliseconds since
//! the Unix epoch; rendering a timestamp as an RFC 3339 string is delegated
//! to the `chrono` crate behind a trusted wrapper.

use vstd::prelude::*;

verus! {

/// What `chrono` renders for a timestamp given as seconds and nanoseconds
/// since the Unix epoch: `None` exactly when the timestamp is out of the
/// range `chrono` supports. The rendering depends on the two arguments alone.
pub uninterp spec fn rfc3339_of(secs: int, nsecs: int) -> Option<Seq<char>>;

/// Relies on `chrono::DateTime::<Utc>::from_timestamp` and
/// `chrono::DateTime::to_rfc3339`: the RFC 3339 rendering of the given
/// timestamp, a function of the two arguments alone; `None` exactly when
/// `from_timestamp` says the timestamp is out of range.
#[verifier::external_body]
fn format_rfc3339(secs: i64, nsecs: u32) -> (r: Option<String>)
    ensures
        match r {
            Some(s) => rfc3339_of(secs as int, nsecs as int) == Some(s@),
            None => rfc3339_of(secs as int, nsecs as int) is None,
        },
{
    match chrono::DateTime::<chrono::Utc>::from_timestamp(secs, nsecs) {
        Some(d) => Some(d.to_rfc3339()),
        None => None,
    }
}

/// Relies on `chrono::Utc::now` and `chrono::DateTime::timestamp_millis`,
/// which read the system clock: nothing is assumed of the value returned.
#[verifier::external_body]
pub(crate) fn now_millis() -> u64 {
    chrono::Utc::now().timestamp_millis() as u64
}

/// The RFC 3339 rendering of a timestamp, falling back to the rendering of
/// the epoch where the timestamp is out of `chrono`'s range.
pub open spec fn rfc3339_or_epoch(secs: int, nsecs: int) -> Seq<char> {
    match rfc3339_of(secs, nsecs) {
        Some(s) => s,
        None => match rfc3339_of(0, 0) {
            Some(s) => s,
            None => Seq::empty(),
        },
    }
}

/// Renders a millisecond timestamp as an RFC 3339 string.
pub fn rfc3339_from_millis(ms: u64) -> (r: String)
    ensures
        r@ == rfc3339_or_epoch((ms / 1000) as int, ((ms % 1000) * 1_000_000) as int),
{
    let secs: i64 = (ms / 1000) as i64;
    let nsecs: u32 = ((ms % 1000) * 1_000_000) as u32;
    match format_rfc3339(secs, nsecs) {
        Some(s) => s,
        None => match format_rfc3339(0, 0) {
            Some(s) => s,
            None => String::new(),
        },
    }
}

/// The current moment as an RFC 3339 string.
pub fn now_rfc3339() -> String {
    rfc3339_from_millis(now_millis())
}

/// The number of whole UTC days since the epoch for a millisecond timestamp;
/// two timestamps fall on the same calendar day exactly when these agree.
pub open spec fn spec_day_index(ms: u64) -> int {
    ms as int / 86_400_000
}

/// The UTC day number of a millisecond timestamp.
pub fn day_index(ms: u64) -> (r: u64)
    ensures
        r == spec_day_index(ms),
{
    ms / 86_400_000
}

} // verus!
