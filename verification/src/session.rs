//! History records, the running session kept for crash recovery, and the
//! timestamp text they carry (ISO 8601, UTC, milliseconds, `Z`).

use vstd::prelude::*;

use crate::text::two_digits;
use crate::timer_state::SessionKind;

verus! {

/// One row of the session history. Timestamps are ISO 8601 UTC text.
#[derive(Clone, Debug, PartialEq)]
pub struct SessionRecord {
    pub id: i64,
    pub kind: SessionKind,
    pub started_at: String,
    pub completed_at: Option<String>,
    pub was_completed: bool,
    pub planned_duration_seconds: u32,
}

/// The session in progress, kept so that it can be recovered after a crash.
#[derive(Clone, Debug, PartialEq)]
pub struct ActiveSession {
    pub kind: SessionKind,
    pub started_at: String,
    pub planned_duration_seconds: u32,
    pub end_at: String,
}

/// The RFC 3339 text, in UTC with milliseconds and a `Z`, of the instant
/// `unix_millis` milliseconds after the UNIX epoch.
pub uninterp spec fn rfc3339_millis_utc(unix_millis: i64) -> Seq<char>;

/// The time of day of the instant, `HH:MM:SS.mmm`.
pub open spec fn clock_text(unix_millis: int) -> Seq<char> {
    let ms_of_day = unix_millis % 86_400_000;
    let ms = ms_of_day % 1000;
    two_digits((ms_of_day / 3_600_000) as nat) + seq![':'] + two_digits(
        ((ms_of_day / 60_000) % 60) as nat,
    ) + seq![':'] + two_digits(((ms_of_day / 1000) % 60) as nat) + seq!['.'] + seq![
        crate::text::digit_char((ms / 100) as nat),
        crate::text::digit_char(((ms / 10) % 10) as nat),
        crate::text::digit_char((ms % 10) as nat),
    ]
}

/// The proleptic Gregorian date `(year, month, day)` of a count of days
/// since 1970-01-01, for counts from zero up.
pub open spec fn civil_from_days(days: int) -> (int, int, int) {
    let z = days + 719_468;
    let era = z / 146_097;
    let doe = z - era * 146_097;
    let yoe = (doe - doe / 1460 + doe / 36_524 - doe / 146_096) / 365;
    let doy = doe - (365 * yoe + yoe / 4 - yoe / 100);
    let mp = (5 * doy + 2) / 153;
    let day = doy - (153 * mp + 2) / 5 + 1;
    let month = if mp < 10 {
        mp + 3
    } else {
        mp - 9
    };
    let year = yoe + era * 400 + if month <= 2 {
        1int
    } else {
        0int
    };
    (year, month, day)
}

/// The calendar date of the instant, `YYYY-MM-DD`.
pub open spec fn date_text(unix_millis: int) -> Seq<char> {
    let (y, m, d) = civil_from_days(unix_millis / 86_400_000);
    seq![
        crate::text::digit_char((y / 1000) as nat),
        crate::text::digit_char(((y / 100) % 10) as nat),
        crate::text::digit_char(((y / 10) % 10) as nat),
        crate::text::digit_char((y % 10) as nat),
    ] + seq!['-'] + two_digits(m as nat) + seq!['-'] + two_digits(d as nat)
}

/// Instants from the epoch up to the end of year 9999, whose year takes
/// four digits.
pub open spec fn four_digit_year(unix_millis: int) -> bool {
    0 <= unix_millis < 253_402_300_800_000
}

/// Instants that the calendar can hold: from the start of year -262143 to
/// the end of year 262142.
pub open spec fn in_calendar_range(unix_millis: int) -> bool {
    -8_334_601_228_800_000 <= unix_millis <= 8_210_266_876_799_999
}

/// `chrono`: `DateTime::from_timestamp_millis` (the UTC instant, or `None`
/// out of the calendar's range), then
/// `to_rfc3339_opts(SecondsFormat::Millis, true)`.
/// Claimed: the text is `rfc3339_millis_utc` of the argument; there is a
/// text exactly for the instants in the calendar's range; and for an instant
/// from the epoch to the end of year 9999 the text is
/// `YYYY-MM-DDTHH:MM:SS.mmmZ`: the proleptic Gregorian date and the time of
/// day of the instant. Other years (signed, five digits or more) are left
/// to the name.
#[verifier::external_body]
fn format_unix_millis(unix_millis: i64) -> (r: Option<String>)
    ensures
        r matches Some(s) ==> s@ == rfc3339_millis_utc(unix_millis),
        r is Some <==> in_calendar_range(unix_millis as int),
        r is Some && four_digit_year(unix_millis as int) ==> {
            let s = r->0;
            s@ == date_text(unix_millis as int) + seq!['T'] + clock_text(unix_millis as int)
                + seq!['Z']
        },
{
    match chrono::DateTime::from_timestamp_millis(unix_millis) {
        Some(dt) => Some(dt.to_rfc3339_opts(chrono::SecondsFormat::Millis, true)),
        None => None,
    }
}

/// The ISO 8601 text (UTC, milliseconds, `Z`) of an instant given in
/// milliseconds since the UNIX epoch, as the front end's `toISOString`
/// writes it; `None` exactly for instants out of the calendar's range.
pub fn iso8601(unix_millis: i64) -> (r: Option<String>)
    ensures
        r matches Some(s) ==> s@ == rfc3339_millis_utc(unix_millis),
        r is Some <==> in_calendar_range(unix_millis as int),
        r is Some && four_digit_year(unix_millis as int) ==> {
            let s = r->0;
            s@ == date_text(unix_millis as int) + seq!['T'] + clock_text(unix_millis as int)
                + seq!['Z']
        },
{
    format_unix_millis(unix_millis)
}

} // verus!
