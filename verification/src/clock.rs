//! Timestamps as calendar text in UTC.

use vstd::prelude::*;
use chrono::{TimeZone, Utc};

verus! {

/// The first second that the calendar holds: the start of the year
/// -262143.
pub const FIRST_SECOND: i64 = -8334601228800;

/// The last second that the calendar holds: the end of the year 262142.
pub const LAST_SECOND: i64 = 8210266876799;

/// Whether the calendar holds the second `secs` after the Unix epoch.
pub open spec fn in_calendar(secs: int) -> bool {
    FIRST_SECOND <= secs <= LAST_SECOND
}

/// The date and time in UTC of the second `secs` after the Unix epoch,
/// written as year, month and day, a `T`, and hour, minute and second.
pub uninterp spec fn utc_text(secs: int) -> Seq<char>;

/// The seconds after the Unix epoch that a timestamp stands for. The upper
/// half of the range of `u64` stands for the seconds before the epoch, in
/// two's complement.
pub open spec fn epoch_seconds(ts: u64) -> int {
    if ts <= i64::MAX {
        ts as int
    } else {
        ts - 0x1_0000_0000_0000_0000
    }
}

/// Trusted: chrono's `TimeZone::timestamp_opt` on `Utc`, taken with
/// `MappedLocalTime::single`, and `DateTime::format` with the pattern
/// `%Y-%m-%dT%H:%M:%S`. chrono makes a date exactly for the years -262143
/// to 262142, which are the seconds from `FIRST_SECOND` to `LAST_SECOND`,
/// and returns no date for any other second. The text of a date depends on
/// the second alone.
#[verifier::external_body]
fn format_utc(secs: i64) -> (text: Option<String>)
    ensures
        text is Some <==> in_calendar(secs as int),
        text matches Some(t) ==> t@ == utc_text(secs as int),
{
    match Utc.timestamp_opt(secs, 0).single() {
        Some(at) => Some(at.format("%Y-%m-%dT%H:%M:%S").to_string()),
        None => None,
    }
}

/// The seconds after the Unix epoch that a timestamp stands for.
pub fn seconds_of(ts: u64) -> (secs: i64)
    ensures
        secs as int == epoch_seconds(ts),
{
    if ts <= 0x7fff_ffff_ffff_ffff {
        ts as i64
    } else {
        let above: u64 = ts - 0x8000_0000_0000_0000;
        above as i64 + i64::MIN
    }
}

/// Writes a timestamp as date and time in UTC, or nothing where the
/// calendar does not hold its second.
pub fn unix_to_iso(ts: u64) -> (text: Option<String>)
    ensures
        text is Some <==> in_calendar(epoch_seconds(ts)),
        text matches Some(t) ==> t@ == utc_text(epoch_seconds(ts)),
{
    format_utc(seconds_of(ts))
}

} // verus!
