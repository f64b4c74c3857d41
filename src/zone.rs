//! Local clocks: times of day written as text, and the wall clock of an
//! IANA time zone at a given UTC instant.

use chrono::{Datelike, Timelike};
use vstd::prelude::*;

verus! {

/// The time of day that `text` spells, as seconds since midnight and
/// nanoseconds within the second, if it spells one.
pub uninterp spec fn time_of_day_of(text: Seq<char>) -> Option<(u32, u32)>;

/// The wall clock in the IANA zone named `zone` at the UTC instant
/// `utc_millis` (milliseconds since the Unix epoch): the weekday counted from
/// Monday as 0, seconds since local midnight, and nanoseconds within the
/// second; none when the zone is unknown or the instant is out of range.
pub uninterp spec fn zone_clock_of(zone: Seq<char>, utc_millis: i64) -> Option<(u32, u32, u32)>;

/// The lower-case form of a string.
pub uninterp spec fn lower_of(text: Seq<char>) -> Seq<char>;

/// Relies on `<chrono::NaiveTime as FromStr>::from_str` (`"HH:MM"` with
/// optional seconds and fraction) and on `Timelike` for the seconds since
/// midnight and the nanoseconds.
#[verifier::external_body]
pub(crate) fn parse_time_of_day(text: &str) -> (r: Option<(u32, u32)>)
    ensures
        r == time_of_day_of(text@),
{
    text.parse::<chrono::NaiveTime>().ok().map(|t| (t.num_seconds_from_midnight(), t.nanosecond()))
}

/// Relies on `<chrono_tz::Tz as FromStr>::from_str`, on
/// `chrono::DateTime::from_timestamp_millis` and `with_timezone`, and on
/// `Datelike::weekday` and `Timelike` for the local weekday and time of day.
#[verifier::external_body]
pub(crate) fn zone_clock(zone: &str, utc_millis: i64) -> (r: Option<(u32, u32, u32)>)
    ensures
        r == zone_clock_of(zone@, utc_millis),
{
    let tz: chrono_tz::Tz = zone.parse().ok()?;
    let local = chrono::DateTime::from_timestamp_millis(utc_millis)?.with_timezone(&tz);
    Some((local.weekday().num_days_from_monday(), local.num_seconds_from_midnight(), local.nanosecond()))
}

/// Relies on `str::to_lowercase`: the result depends on the characters alone.
#[verifier::external_body]
pub(crate) fn lowercase(text: &str) -> (r: String)
    ensures
        r@ == lower_of(text@),
{
    text.to_lowercase()
}

} // verus!
