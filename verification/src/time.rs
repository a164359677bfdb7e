use chrono::TimeZone;
use vstd::prelude::*;

verus! {

/// A UTC instant: seconds since the Unix epoch and the nanoseconds beyond them.
#[derive(Clone, Copy, Debug, PartialEq, Eq, Structural)]
pub struct UtcTime {
    pub secs: i64,
    pub nanos: u32,
}

/// Earliest second that `chrono::DateTime<Utc>` represents.
pub const MIN_UTC_SECS: i64 = -8_334_601_228_800i64;

/// Latest second that `chrono::DateTime<Utc>` represents.
pub const MAX_UTC_SECS: i64 = 8_210_266_876_799i64;

/// Earliest second that `chrono::DateTime<Utc>` represents (1 Jan of year -262143).
pub open spec fn min_utc_secs() -> int {
    -8_334_601_228_800
}

/// Latest second that `chrono::DateTime<Utc>` represents (31 Dec of year 262142).
pub open spec fn max_utc_secs() -> int {
    8_210_266_876_799
}

/// Whether `Utc.timestamp_opt(secs, nanos)` yields an instant: the second lies in
/// chrono's calendar range and the nanoseconds are below one second, or below two
/// seconds on the last second of a minute (a leap second).
pub open spec fn utc_valid(secs: int, nanos: int) -> bool {
    &&& min_utc_secs() <= secs <= max_utc_secs()
    &&& 0 <= nanos
    &&& (nanos < 1_000_000_000 || (nanos < 2_000_000_000 && secs % 60 == 59))
}

/// The instant at a whole second.
pub open spec fn at_secs(secs: int) -> UtcTime {
    UtcTime { secs: secs as i64, nanos: 0 }
}

/// `Utc.timestamp_opt(secs, nanos).single()`: the instant when chrono can
/// represent it, as stated by `utc_valid`, and `None` otherwise.
#[verifier::external_body]
pub(crate) fn utc_timestamp_opt(secs: i64, nanos: u32) -> (r: Option<UtcTime>)
    ensures
        r is Some <==> utc_valid(secs as int, nanos as int),
        r matches Some(t) ==> t == (UtcTime { secs, nanos }),
{
    chrono::Utc.timestamp_opt(secs, nanos).single().map(
        |t| UtcTime { secs: t.timestamp(), nanos: t.timestamp_subsec_nanos() },
    )
}

/// `Utc.timestamp_nanos(ns)`: the instant `ns` nanoseconds after the epoch,
/// split into whole seconds (rounded down) and the nanoseconds beyond them.
#[verifier::external_body]
pub(crate) fn utc_timestamp_nanos(ns: i64) -> (r: UtcTime)
    ensures
        r.secs == ns as int / 1_000_000_000,
        r.nanos == ns as int % 1_000_000_000,
{
    let t = chrono::Utc.timestamp_nanos(ns);
    UtcTime { secs: t.timestamp(), nanos: t.timestamp_subsec_nanos() }
}

/// `Utc::now()`: the current instant. What it returns depends on the clock;
/// all that is promised is that it is an instant chrono represents.
#[verifier::external_body]
pub(crate) fn utc_now() -> (r: UtcTime)
    ensures
        utc_valid(r.secs as int, r.nanos as int),
{
    let t = chrono::Utc::now();
    UtcTime { secs: t.timestamp(), nanos: t.timestamp_subsec_nanos() }
}

/// `DateTime<Utc> + Duration::from_secs(secs)` for an instant off a leap second:
/// the same sub-second part, `secs` seconds later. chrono panics when the sum
/// leaves its range, which `requires` rules out.
#[verifier::external_body]
pub(crate) fn utc_add_secs(t: UtcTime, secs: u64) -> (r: UtcTime)
    requires
        utc_valid(t.secs as int, t.nanos as int),
        t.nanos < 1_000_000_000,
        t.secs + secs <= max_utc_secs(),
    ensures
        r == (UtcTime { secs: (t.secs + secs) as i64, nanos: t.nanos }),
{
    let base = chrono::DateTime::from_timestamp(t.secs, t.nanos).unwrap();
    let sum = base + std::time::Duration::from_secs(secs);
    UtcTime { secs: sum.timestamp(), nanos: sum.timestamp_subsec_nanos() }
}

/// The instant at a whole second, with chrono deciding whether it exists.
pub fn utc_at_secs(secs: i64) -> (r: Option<UtcTime>)
    ensures
        r is Some <==> min_utc_secs() <= secs <= max_utc_secs(),
        r matches Some(t) ==> t == at_secs(secs as int),
{
    utc_timestamp_opt(secs, 0)
}

/// The instant at a whole second, or `now` when chrono cannot represent it
/// (what `timestamp_opt(..).single().unwrap_or_else(Utc::now)` does).
pub fn utc_at_secs_or(secs: i64, now: UtcTime) -> (r: UtcTime)
    ensures
        r == (if min_utc_secs() <= secs <= max_utc_secs() { at_secs(secs as int) } else { now }),
{
    match utc_at_secs(secs) {
        Some(t) => t,
        None => now,
    }
}

} // verus!
