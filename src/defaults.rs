//! Default values for the lifecycle fields: identifiers, the clock and
//! calendar arithmetic on unix timestamps (UTC seconds).

use vstd::prelude::*;

verus! {

/// Seconds in one day.
pub const SECONDS_PER_DAY: i64 = 86400;

/// The longest month, in seconds: a bound on how far one month moves a timestamp.
pub const MAX_SECONDS_PER_MONTH: i64 = 2678400;

/// `9999-12-31 12:59:59` UTC, the timestamp that stands for "never".
pub const NEVER: i64 = 253402261199;

/// The first second chrono can represent (year -262143).
pub const EARLIEST_TIMESTAMP: i64 = -8334601315200;

/// The last second chrono can represent (year 262142).
pub const LATEST_TIMESTAMP: i64 = 8210266876799;

/// The access level a note gets when none is given: `public`.
pub open spec fn default_access() -> Seq<char> {
    seq!['p', 'u', 'b', 'l', 'i', 'c']
}

/// Whether chrono can hold the timestamp as a UTC date and time.
pub open spec fn representable(ts: int) -> bool {
    EARLIEST_TIMESTAMP <= ts <= LATEST_TIMESTAMP
}

/// A lower-case hexadecimal digit.
pub open spec fn is_hex_digit(c: char) -> bool {
    ('0' <= c && c <= '9') || ('a' <= c && c <= 'f')
}

/// The hyphenated textual form of a UUID: `xxxxxxxx-xxxx-xxxx-xxxx-xxxxxxxxxxxx`.
pub open spec fn is_uuid_text(s: Seq<char>) -> bool {
    &&& s.len() == 36
    &&& forall|i: int|
        0 <= i < 36 ==> if i == 8 || i == 13 || i == 18 || i == 23 {
            #[trigger] s[i] == '-'
        } else {
            is_hex_digit(s[i])
        }
}

/// The timestamp that chrono computes by adding `months` calendar months to
/// `ts`, the day of month clamped to the last valid day of the target month.
pub uninterp spec fn months_after(ts: int, months: int) -> int;

/// Relies on `uuid::Uuid::new_v4` and its `Display` impl, which writes the
/// lower-case hyphenated form.
#[verifier::external_body]
fn random_uuid_text() -> (r: String)
    ensures
        is_uuid_text(r@),
{
    uuid::Uuid::new_v4().to_string()
}

/// Relies on `chrono::Utc::now`: the system clock, which chrono refuses
/// before the epoch and beyond the dates it can represent.
#[verifier::external_body]
fn utc_clock_seconds() -> (r: i64)
    ensures
        0 <= r <= LATEST_TIMESTAMP,
{
    chrono::Utc::now().timestamp()
}

/// Relies on chrono: `DateTime::from_timestamp`, `TimeDelta::try_days` and
/// `DateTime + TimeDelta`, which adds exactly `86400 * days` seconds.
#[verifier::external_body]
fn chrono_add_days(dtm: i64, days: i64) -> (r: i64)
    requires
        representable(dtm as int),
        representable(dtm + SECONDS_PER_DAY * days),
    ensures
        r == dtm + SECONDS_PER_DAY * days,
{
    let dt = chrono::DateTime::from_timestamp(dtm, 0).unwrap() + chrono::TimeDelta::try_days(
        days,
    ).unwrap();
    dt.timestamp()
}

/// Relies on chrono: `DateTime::from_timestamp` and `DateTime + Months`,
/// which moves the date by calendar months and clamps the day of month.
#[verifier::external_body]
fn chrono_add_months(dtm: i64, months: u32) -> (r: i64)
    requires
        representable(dtm as int),
        dtm + MAX_SECONDS_PER_MONTH * months <= LATEST_TIMESTAMP,
    ensures
        r == months_after(dtm as int, months as int),
{
    let dt = chrono::DateTime::from_timestamp(dtm, 0).unwrap() + chrono::Months::new(months);
    dt.timestamp()
}

/// A fresh random identifier in the hyphenated UUID v4 form (36 characters).
pub fn id() -> (r: String)
    ensures
        is_uuid_text(r@),
{
    random_uuid_text()
}

/// `dtm` moved by `days` days of 86400 seconds.
pub fn add_days(dtm: i64, days: i64) -> (r: i64)
    requires
        representable(dtm as int),
        representable(dtm + SECONDS_PER_DAY * days),
    ensures
        r == dtm + SECONDS_PER_DAY * days,
{
    chrono_add_days(dtm, days)
}

/// `dtm` moved by `months` calendar months.
pub fn add_months(dtm: i64, months: u32) -> (r: i64)
    requires
        representable(dtm as int),
        dtm + MAX_SECONDS_PER_MONTH * months <= LATEST_TIMESTAMP,
    ensures
        r == months_after(dtm as int, months as int),
{
    chrono_add_months(dtm, months)
}

/// `dtm` moved by `years` calendar years (twelve months each).
pub fn add_years(dtm: i64, years: u32) -> (r: i64)
    requires
        representable(dtm as int),
        dtm + MAX_SECONDS_PER_MONTH * 12 * years <= LATEST_TIMESTAMP,
    ensures
        r == months_after(dtm as int, 12 * years),
{
    assert(12 * years <= u32::MAX) by (nonlinear_arith)
        requires
            dtm + MAX_SECONDS_PER_MONTH * 12 * years <= LATEST_TIMESTAMP,
            representable(dtm as int),
    ;
    assert(MAX_SECONDS_PER_MONTH * 12 * years == MAX_SECONDS_PER_MONTH * (years * 12)) by (
    nonlinear_arith);
    chrono_add_months(dtm, years * 12)
}

/// The timestamp that stands for "never": `253402261199`.
pub fn never() -> (r: i64)
    ensures
        r == NEVER,
{
    NEVER
}

/// The current time in UTC seconds. The library keeps its timestamps between
/// the epoch and `never()`; a clock beyond that reads as `never()`.
pub fn now() -> (r: i64)
    ensures
        0 <= r <= NEVER,
{
    let t = utc_clock_seconds();
    if t > NEVER {
        NEVER
    } else {
        t
    }
}

/// The access level of a note created without one: `"public"`.
pub fn access() -> (r: String)
    ensures
        r@ == default_access(),
{
    proof {
        reveal_strlit("public");
    }
    "public".to_owned()
}

} // verus!
