//! Wall-clock timestamps.
//!
//! The library reasons about time as plain integers: a timestamp is a count
//! of whole seconds since the Unix epoch plus a sub-second nanosecond part.
//! The clock is read through `std::time::SystemTime`; rendering goes
//! through chrono.

use vstd::prelude::*;

verus! {

/// Nanoseconds in one second.
pub const NANOS_PER_SECOND: i128 = 1_000_000_000;

/// A point in time (UTC).
#[derive(Debug, Clone, Copy, PartialEq, Eq, Structural)]
pub struct Timestamp {
    /// Whole seconds since 1970-01-01T00:00:00Z.
    pub secs: i64,
    /// Nanoseconds past `secs`.
    pub nanos: u32,
}

impl Timestamp {
    /// The timestamp as nanoseconds since the epoch.
    pub open spec fn total_nanos(self) -> int {
        self.secs as int * 1_000_000_000 + self.nanos as int
    }

    /// Nanoseconds since the epoch.
    pub fn nanos_since_epoch(&self) -> (r: i128)
        ensures
            r == self.total_nanos(),
    {
        (self.secs as i128) * NANOS_PER_SECOND + (self.nanos as i128)
    }
}

/// Whether chrono can represent the UTC instant `secs` seconds and `nanos`
/// nanoseconds after the epoch (`DateTime::from_timestamp` gives `Some`):
/// the day lies between January 1 of year -262143 and December 31 of year
/// 262142, and the nanoseconds are below two seconds' worth, passing one
/// second only in the last second of a minute (a leap second).
pub open spec fn utc_representable(secs: i64, nanos: u32) -> bool {
    &&& -8_334_601_228_800 <= secs <= 8_210_266_876_799
    &&& nanos < 2_000_000_000
    &&& (nanos >= 1_000_000_000 ==> secs as int % 60 == 59)
}

/// The system clock's time type.
#[verifier::external_type_specification]
#[verifier::external_body]
pub struct ExSystemTime(std::time::SystemTime);

/// The system clock's current reading (`SystemTime::now`); nothing is
/// stated of it.
#[verifier::external_body]
fn system_time_now() -> std::time::SystemTime {
    std::time::SystemTime::now()
}

/// The distance of a clock reading from the Unix epoch
/// (`SystemTime::duration_since(UNIX_EPOCH)`), as whole seconds and
/// nanoseconds: `Ok` when the reading is not before the epoch, `Err` with
/// the distance before it otherwise. As `Duration::subsec_nanos`
/// documents, the nanoseconds stay below one second.
#[verifier::external_body]
fn since_unix_epoch(t: std::time::SystemTime) -> (r: Result<(u64, u32), (u64, u32)>)
    ensures
        match r {
            Ok((_, n)) => n < 1_000_000_000,
            Err((_, n)) => n < 1_000_000_000,
        },
{
    match t.duration_since(std::time::UNIX_EPOCH) {
        Ok(d) => Ok((d.as_secs(), d.subsec_nanos())),
        Err(e) => Err((e.duration().as_secs(), e.duration().subsec_nanos())),
    }
}

/// Latest second that chrono represents.
pub const LATEST_UTC_SECOND: i64 = 8_210_266_876_799;

/// Earliest second that chrono represents.
pub const EARLIEST_UTC_SECOND: i64 = -8_334_601_228_800;

/// The current UTC time, from the system clock: before the epoch it is
/// negative; a reading outside chrono's range (hundreds of millennia away)
/// is taken as the nearest end of that range. Never fails.
pub fn now() -> (t: Timestamp)
    ensures
        utc_representable(t.secs, t.nanos),
        t.nanos < 1_000_000_000,
{
    match since_unix_epoch(system_time_now()) {
        Ok((s, n)) => {
            if s <= 8_210_266_876_799 {
                Timestamp { secs: s as i64, nanos: n }
            } else {
                Timestamp { secs: LATEST_UTC_SECOND, nanos: 0 }
            }
        },
        Err((s, n)) => {
            if s >= 8_334_601_228_800 {
                Timestamp { secs: EARLIEST_UTC_SECOND, nanos: 0 }
            } else if n == 0 {
                Timestamp { secs: -(s as i64), nanos: 0 }
            } else {
                Timestamp { secs: -(s as i64) - 1, nanos: 1_000_000_000 - n }
            }
        },
    }
}

/// The RFC 3339 rendering that chrono gives a UTC instant, when the instant
/// is representable.
pub uninterp spec fn rfc3339_text(secs: i64, nanos: u32) -> Option<Seq<char>>;

/// The view of an optional string.
pub open spec fn opt_string_view(o: Option<String>) -> Option<Seq<char>> {
    match o {
        Some(s) => Some(s@),
        None => None,
    }
}

/// Renders an instant in RFC 3339 form (`DateTime::from_timestamp` followed by
/// `DateTime::to_rfc3339`).
///
/// The rendering is a function of the two arguments alone and is named
/// `rfc3339_text`; `None` exactly when chrono cannot represent the
/// instant (see `utc_representable`).
#[verifier::external_body]
pub(crate) fn rfc3339(secs: i64, nanos: u32) -> (r: Option<String>)
    ensures
        opt_string_view(r) == rfc3339_text(secs, nanos),
        r is Some <==> utc_representable(secs, nanos),
{
    match chrono::DateTime::from_timestamp(secs, nanos) {
        Some(d) => Some(d.to_rfc3339()),
        None => None,
    }
}

/// The text chrono's `format` gives a UTC instant for a format pattern,
/// when the instant is representable.
pub uninterp spec fn utc_format_text(secs: i64, nanos: u32, pattern: Seq<char>) -> Option<Seq<char>>;

/// Whether the pattern is one of the compact date and time patterns used
/// for file names ("%Y%m%d" and "%H%M%S").
pub open spec fn is_compact_pattern(pattern: Seq<char>) -> bool {
    pattern == "%Y%m%d"@ || pattern == "%H%M%S"@
}

/// Formats a UTC instant with a compact date or time pattern
/// (`DateTime::from_timestamp` followed by `format(..).to_string()`).
///
/// The rendering is a function of the arguments alone and is named
/// `utc_format_text`; `None` exactly when chrono cannot represent the
/// instant (see `utc_representable`).
/// Only the two compact patterns are accepted: chrono's formatting fails
/// (and `to_string` panics) on some other patterns.
#[verifier::external_body]
pub(crate) fn format_utc(secs: i64, nanos: u32, pattern: &str) -> (r: Option<String>)
    requires
        is_compact_pattern(pattern@),
    ensures
        opt_string_view(r) == utc_format_text(secs, nanos, pattern@),
        r is Some <==> utc_representable(secs, nanos),
{
    match chrono::DateTime::from_timestamp(secs, nanos) {
        Some(d) => Some(d.format(pattern).to_string()),
        None => None,
    }
}

} // verus!
