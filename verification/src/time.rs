//! Points in time, read from the system clock and computed with `chrono`.
use vstd::prelude::*;

verus! {

/// A point in time: whole seconds since 1970-01-01 00:00:00 UTC and the nanoseconds
/// within that second.
pub struct Timestamp {
    pub secs: i64,
    pub nanos: u32,
}

/// The earliest second `chrono` can represent: -262143-01-01 00:00:00 UTC.
pub const MIN_UTC_SECS: i64 = -8334601315200;

/// The latest second `chrono` can represent: +262142-12-31 23:59:59 UTC.
pub const MAX_UTC_SECS: i64 = 8210266876799;

/// The earliest second `chrono` can represent.
pub open spec fn min_utc_secs() -> int {
    MIN_UTC_SECS as int
}

/// The latest second `chrono` can represent.
pub open spec fn max_utc_secs() -> int {
    MAX_UTC_SECS as int
}

/// Whether `t` is a date and time `chrono` can represent, outside a leap second.
pub open spec fn in_utc_range(t: Timestamp) -> bool {
    &&& min_utc_secs() <= t.secs <= max_utc_secs()
    &&& t.nanos < 1_000_000_000
}

/// Whether `t` is a reading the system clock can give: a date `chrono` can represent, not
/// before 1970, outside a leap second.
pub open spec fn clock_reading(t: Timestamp) -> bool {
    in_utc_range(t) && 0 <= t.secs
}

/// The bound on the seconds of a `chrono::TimeDelta` made by `TimeDelta::seconds`.
pub open spec fn max_delta_secs() -> int {
    i64::MAX / 1000
}

/// How `chrono` writes the date and time `secs`/`nanos` with `Display`
/// (for instance `2015-05-15 00:00:00 UTC`).
pub uninterp spec fn utc_display(secs: i64, nanos: u32) -> Seq<char>;

/// `chrono::Utc::now()`, as seconds and nanoseconds. The value depends on the clock;
/// `Utc::now` reads the system time as a duration since the Unix epoch (it panics before
/// the epoch), so the seconds are not negative and the nanoseconds are below one second.
#[verifier::external_body]
pub(crate) fn utc_now() -> (t: Timestamp)
    ensures
        0 <= t.secs <= max_utc_secs(),
        t.nanos < 1_000_000_000,
{
    let now = chrono::Utc::now();
    Timestamp { secs: now.timestamp(), nanos: now.timestamp_subsec_nanos() }
}

/// `chrono::DateTime::<Utc>::checked_add_signed` with `TimeDelta::seconds(delta)`, read
/// back with `timestamp()`: the sum when it stays within `chrono`'s range, `None` otherwise.
/// `TimeDelta::seconds` panics beyond `i64::MAX / 1000` either way, hence the `requires`.
#[verifier::external_body]
pub(crate) fn checked_add_seconds(t: Timestamp, delta: i64) -> (r: Option<i64>)
    requires
        in_utc_range(t),
        -max_delta_secs() <= delta <= max_delta_secs(),
    ensures
        r matches Some(s) ==> s == t.secs + delta,
        r is Some <==> min_utc_secs() <= t.secs + delta <= max_utc_secs(),
{
    match chrono::DateTime::from_timestamp(t.secs, t.nanos) {
        Some(d) => match d.checked_add_signed(chrono::TimeDelta::seconds(delta)) {
            Some(e) => Some(e.timestamp()),
            None => None,
        },
        None => None,
    }
}

/// `chrono::DateTime::<Utc>::from_timestamp(t.secs, t.nanos)` written with `to_string()`.
#[verifier::external_body]
pub(crate) fn format_utc(t: Timestamp) -> (s: String)
    requires
        in_utc_range(t),
    ensures
        s@ == utc_display(t.secs, t.nanos),
{
    match chrono::DateTime::from_timestamp(t.secs, t.nanos) {
        Some(d) => d.to_string(),
        None => String::new(),
    }
}

} // verus!
