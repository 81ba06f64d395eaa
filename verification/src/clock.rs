//! Wall-clock timestamps, held as milliseconds since the Unix epoch and
//! clamped to a range that renders as a four-digit year in RFC 3339.

use vstd::prelude::*;

verus! {

/// The last millisecond of the year 9999, the highest timestamp kept.
pub const MAX_TIMESTAMP_MILLIS: i64 = 253402300799999;

/// A timestamp forced into the supported range.
pub open spec fn clamp_timestamp_spec(ms: int) -> int {
    if ms < 0 {
        0
    } else if ms > MAX_TIMESTAMP_MILLIS {
        MAX_TIMESTAMP_MILLIS as int
    } else {
        ms
    }
}

/// The RFC 3339 rendering of a timestamp in milliseconds since the epoch.
pub uninterp spec fn rfc3339_of(ms: int) -> Seq<char>;

/// Relies on chrono's `Utc::now`: the current wall-clock time; nothing is
/// promised of the value.
#[verifier::external_body]
fn now_millis_raw() -> (r: i64) {
    chrono::Utc::now().timestamp_millis()
}

/// Forces a raw clock reading into the supported timestamp range.
pub fn clamp_timestamp(ms: i64) -> (r: i64)
    ensures
        r == clamp_timestamp_spec(ms as int),
        0 <= r <= MAX_TIMESTAMP_MILLIS,
{
    if ms < 0 {
        0
    } else if ms > MAX_TIMESTAMP_MILLIS {
        MAX_TIMESTAMP_MILLIS
    } else {
        ms
    }
}

/// Reads the clock and clamps the result into the supported range.
pub fn now_millis() -> (r: i64)
    ensures
        0 <= r <= MAX_TIMESTAMP_MILLIS,
{
    clamp_timestamp(now_millis_raw())
}

/// Relies on chrono's `DateTime::from_timestamp_millis` and
/// `DateTime::to_rfc3339`: the RFC 3339 text for a timestamp, a function
/// of the value alone.
#[verifier::external_body]
pub(crate) fn format_rfc3339(ms: i64) -> (r: String)
    requires
        0 <= ms <= MAX_TIMESTAMP_MILLIS,
    ensures
        r@ == rfc3339_of(ms as int),
{
    match chrono::DateTime::<chrono::Utc>::from_timestamp_millis(ms) {
        Some(t) => t.to_rfc3339(),
        None => String::new(),
    }
}

} // verus!
