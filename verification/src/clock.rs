//! The date and the time of day that the status bar shows, read from the
//! local clock and written out by `chrono`.

use vstd::prelude::*;
use chrono::{Datelike, Timelike};
use crate::text::{decimal_digits, digit_char};

verus! {

/// A local date and time, field by field.
///
/// `nanosecond` reaches past one second only during a leap second, which is
/// then shown as second 60.
#[derive(Clone, Copy, Debug, PartialEq, Eq)]
pub struct Stamp {
    pub year: i32,
    pub month: u32,
    pub day: u32,
    pub hour: u32,
    pub minute: u32,
    pub second: u32,
    pub nanosecond: u32,
}

/// Whether `year` is a leap year of the proleptic Gregorian calendar.
pub open spec fn is_leap_year(year: int) -> bool {
    year % 4 == 0 && (year % 100 != 0 || year % 400 == 0)
}

/// The number of days of `month` (1 to 12) in `year`.
pub open spec fn days_in_month(year: int, month: int) -> int {
    if month == 2 {
        if is_leap_year(year) {
            29
        } else {
            28
        }
    } else if month == 4 || month == 6 || month == 9 || month == 11 {
        30
    } else {
        31
    }
}

impl Stamp {
    /// Whether the fields name a date and time that `chrono` can hold.
    pub open spec fn valid(self) -> bool {
        &&& -262143 <= self.year <= 262142
        &&& 1 <= self.month <= 12
        &&& 1 <= self.day <= days_in_month(self.year as int, self.month as int)
        &&& self.hour < 24
        &&& self.minute < 60
        &&& self.second < 60
        &&& self.nanosecond < 2_000_000_000
        &&& self.nanosecond >= 1_000_000_000 ==> self.second == 59
    }

    /// The second as it is shown: 60 during a leap second.
    pub open spec fn shown_second(self) -> nat {
        if self.nanosecond >= 1_000_000_000 {
            (self.second + 1) as nat
        } else {
            self.second as nat
        }
    }
}

/// `n` (below 100) written with two digits, zero first where needed.
pub open spec fn two_digits(n: nat) -> Seq<char> {
    seq![digit_char(n / 10), digit_char(n % 10)]
}

/// `n` (below 10000) written with four digits, zeros first where needed.
pub open spec fn four_digits(n: nat) -> Seq<char> {
    two_digits(n / 100) + two_digits(n % 100)
}

/// The digits `d` with zeros put before them up to `width` characters.
pub open spec fn zero_padded(d: Seq<char>, width: nat) -> Seq<char> {
    let pad: nat = if d.len() < width {
        (width - d.len()) as nat
    } else {
        0
    };
    Seq::new(pad, |i: int| '0') + d
}

/// The year as `%Y` writes it: four zero-padded digits for the years 0 to
/// 9999, otherwise a sign and at least four zero-padded digits.
pub open spec fn year_text(year: int) -> Seq<char> {
    if 0 <= year <= 9999 {
        four_digits(year as nat)
    } else {
        let digits = zero_padded(decimal_digits((if year < 0 { -year } else { year }) as nat), 4);
        if year < 0 {
            seq!['-'] + digits
        } else {
            seq!['+'] + digits
        }
    }
}

/// The English three-letter name of `month` (1 to 12).
pub open spec fn month_abbr(month: int) -> Seq<char> {
    if month == 1 {
        seq!['J', 'a', 'n']
    } else if month == 2 {
        seq!['F', 'e', 'b']
    } else if month == 3 {
        seq!['M', 'a', 'r']
    } else if month == 4 {
        seq!['A', 'p', 'r']
    } else if month == 5 {
        seq!['M', 'a', 'y']
    } else if month == 6 {
        seq!['J', 'u', 'n']
    } else if month == 7 {
        seq!['J', 'u', 'l']
    } else if month == 8 {
        seq!['A', 'u', 'g']
    } else if month == 9 {
        seq!['S', 'e', 'p']
    } else if month == 10 {
        seq!['O', 'c', 't']
    } else if month == 11 {
        seq!['N', 'o', 'v']
    } else {
        seq!['D', 'e', 'c']
    }
}

/// The pattern the bar writes the time of day with.
pub open spec fn time_pattern() -> Seq<char> {
    "%H:%M:%S"@
}

/// The pattern the bar writes the date with: day, month and year in quotes.
pub open spec fn date_pattern() -> Seq<char> {
    "\"%d %b %Y\""@
}

/// The time of day as `HH:MM:SS`.
pub open spec fn clock_face(st: Stamp) -> Seq<char> {
    two_digits(st.hour as nat) + seq![':'] + two_digits(st.minute as nat) + seq![':']
        + two_digits(st.shown_second())
}

/// The date as `"DD Mon YYYY"`, quotes included (see `year_text` for the year).
pub open spec fn calendar_face(st: Stamp) -> Seq<char> {
    seq!['"'] + two_digits(st.day as nat) + seq![' '] + month_abbr(st.month as int) + seq![' ']
        + year_text(st.year as int) + seq!['"']
}

/// The number of days from 1970-01-01 to the given date of the proleptic
/// Gregorian calendar (negative before it).
pub open spec fn days_from_civil(year: int, month: int, day: int) -> int {
    let y = if month <= 2 {
        year - 1
    } else {
        year
    };
    let era = y / 400;
    let yoe = y - era * 400;
    let mp = if month > 2 {
        month - 3
    } else {
        month + 9
    };
    let doy = (153 * mp + 2) / 5 + day - 1;
    let doe = yoe * 365 + yoe / 4 - yoe / 100 + doy;
    era * 146097 + doe - 719468
}

/// The seconds from 1970-01-01 00:00:00 to the date and time of `st`, read
/// as a time of the same zone.
pub open spec fn epoch_seconds(st: Stamp) -> int {
    days_from_civil(st.year as int, st.month as int, st.day as int) * 86400 + st.hour * 3600
        + st.minute * 60 + st.second
}

/// The last second that `chrono` can hold: the end of 262142-12-31.
pub open spec fn latest_epoch_second() -> int {
    days_from_civil(262142, 12, 31) * 86400 + 86399
}

/// Whether `st` is the local time at `secs` seconds and `nanos` nanoseconds
/// after the epoch under some offset from UTC of less than a day.
pub open spec fn local_time_at(st: Stamp, secs: int, nanos: int) -> bool {
    &&& st.valid()
    &&& st.nanosecond == nanos
    &&& -86400 < epoch_seconds(st) - secs < 86400
}

/// The time on the system clock since the Unix epoch, by std's
/// `SystemTime::elapsed` on `UNIX_EPOCH`, as whole seconds and the
/// nanoseconds past them.
///
/// What comes back depends on the clock. The contract claims only that the
/// nanoseconds stay below one second, as `Duration::subsec_nanos` documents;
/// `elapsed` fails, and there is no result, where the clock stands before the
/// epoch.
#[verifier::external_body]
pub fn time_since_epoch() -> (r: Option<(u64, u32)>)
    ensures
        r matches Some(t) ==> t.1 < 1_000_000_000,
{
    let d = std::time::UNIX_EPOCH.elapsed().ok()?;
    Some((d.as_secs(), d.subsec_nanos()))
}

/// The local date and time, field by field, at `secs` seconds and `nanos`
/// nanoseconds after the Unix epoch: `chrono::DateTime::from_timestamp`, then
/// `with_timezone(&Local)`, and the UTC time shifted by the local offset with
/// `NaiveDateTime::checked_add_offset`.
///
/// The offset comes from the time zone the system is set to, so the contract
/// does not fix it. It claims what `chrono` documents: the result is the UTC
/// time `secs` shifted by an offset of less than a day (`FixedOffset` holds
/// no more), keeping the nanoseconds; `from_timestamp` and
/// `checked_add_offset` give a result wherever the time, shifted by up to a
/// day, stays within the dates `chrono` holds. `chrono`'s time-zone lookup
/// panics on time-zone data it cannot use; nothing here states that case.
#[verifier::external_body]
pub fn stamp_at(secs: u64, nanos: u32) -> (r: Option<Stamp>)
    requires
        nanos < 1_000_000_000,
    ensures
        r matches Some(st) ==> local_time_at(st, secs as int, nanos as int),
        secs + 86400 <= latest_epoch_second() ==> r is Some,
{
    let utc = chrono::DateTime::from_timestamp(i64::try_from(secs).ok()?, nanos)?;
    let local = utc.with_timezone(&chrono::Local);
    let now = local.naive_utc().checked_add_offset(*local.offset())?;
    Some(
        Stamp {
            year: now.year(),
            month: now.month(),
            day: now.day(),
            hour: now.hour(),
            minute: now.minute(),
            second: now.second(),
            nanosecond: now.nanosecond(),
        },
    )
}

/// The local date and time for a reading of the clock (seconds and
/// nanoseconds since the epoch): none where there is no reading; otherwise
/// the reading in the local zone, which there always is for a reading at
/// least a day inside the dates `chrono` holds.
pub fn local_stamp(reading: Option<(u64, u32)>) -> (r: Option<Stamp>)
    requires
        reading matches Some(t) ==> t.1 < 1_000_000_000,
    ensures
        reading is None ==> r is None,
        r matches Some(st) ==> reading matches Some(t) && local_time_at(st, t.0 as int, t.1 as int),
        reading matches Some(t) && t.0 + 86400 <= latest_epoch_second() ==> r is Some,
{
    match reading {
        Some((secs, nanos)) => stamp_at(secs, nanos),
        None => None,
    }
}

/// The local date and time now; `None` where the clock stands before the
/// Unix epoch or past what `chrono` can hold.
pub fn local_now() -> (r: Option<Stamp>)
    ensures
        r matches Some(st) ==> exists|secs: u64, nanos: u32|
            nanos < 1_000_000_000 && local_time_at(st, secs as int, nanos as int),
{
    local_stamp(time_since_epoch())
}

/// Builds `chrono`'s `NaiveDateTime` from `st` and writes it with `format(fmt)`.
///
/// The contract states the result for the two patterns the bar uses, the only
/// ones it admits, as `chrono`'s documentation and source give them: `%H`,
/// `%M`, `%S` and `%d` are two zero-padded digits (second 60 in a leap
/// second), `%b` the English three-letter month and `%Y` four zero-padded
/// digits for years 0 to 9999, a sign and at least four zero-padded digits
/// for other years.
#[verifier::external_body]
pub fn format_stamp(st: &Stamp, fmt: &str) -> (r: String)
    requires
        st.valid(),
        fmt@ == time_pattern() || fmt@ == date_pattern(),
    ensures
        fmt@ == time_pattern() ==> r@ == clock_face(*st),
        fmt@ == date_pattern() ==> r@ == calendar_face(*st),
{
    let date = chrono::NaiveDate::from_ymd_opt(st.year, st.month, st.day).unwrap();
    let time = date.and_hms_nano_opt(st.hour, st.minute, st.second, st.nanosecond).unwrap();
    time.format(fmt).to_string()
}

/// The time of day of `st` as the bar shows it.
pub fn time_text(st: &Stamp) -> (r: String)
    requires
        st.valid(),
    ensures
        r@ == clock_face(*st),
{
    format_stamp(st, "%H:%M:%S")
}

/// The date of `st` as the bar shows it.
pub fn date_text(st: &Stamp) -> (r: String)
    requires
        st.valid(),
    ensures
        r@ == calendar_face(*st),
{
    format_stamp(st, "\"%d %b %Y\"")
}

/// The date for the bar from a reading of the clock: none where there is
/// no reading.
pub fn date_of(now: Option<Stamp>) -> (r: Option<String>)
    requires
        now matches Some(st) ==> st.valid(),
    ensures
        match now {
            Some(st) => r matches Some(s) && s@ == calendar_face(st),
            None => r is None,
        },
{
    match now {
        Some(st) => Some(date_text(&st)),
        None => None,
    }
}

/// The time of day for the bar from a reading of the clock: none where there
/// is no reading.
pub fn time_of(now: Option<Stamp>) -> (r: Option<String>)
    requires
        now matches Some(st) ==> st.valid(),
    ensures
        match now {
            Some(st) => r matches Some(s) && s@ == clock_face(st),
            None => r is None,
        },
{
    match now {
        Some(st) => Some(time_text(&st)),
        None => None,
    }
}

/// The current local date, in quotes, for the bar; none where the clock
/// cannot be read (see `local_now`).
pub fn get_date() -> (r: Option<String>)
    ensures
        r matches Some(s) ==> exists|st: Stamp, secs: u64, nanos: u32|
            nanos < 1_000_000_000 && local_time_at(st, secs as int, nanos as int) && s@
                == calendar_face(st),
{
    date_of(local_now())
}

/// The current local time of day for the bar; none where the clock cannot
/// be read (see `local_now`).
pub fn get_time() -> (r: Option<String>)
    ensures
        r matches Some(s) ==> exists|st: Stamp, secs: u64, nanos: u32|
            nanos < 1_000_000_000 && local_time_at(st, secs as int, nanos as int) && s@
                == clock_face(st),
{
    time_of(local_now())
}

} // verus!
