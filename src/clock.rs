//! Wall-clock time as plain calendar fields, and its textual rendering.

use vstd::prelude::*;

verus! {

#[verifier::external_type_specification]
#[verifier::external_body]
pub struct ExOffsetDateTime(time::OffsetDateTime);

/// Relies on `OffsetDateTime::now_utc`: the current instant, of which nothing is promised.
pub assume_specification[ time::OffsetDateTime::now_utc ]() -> time::OffsetDateTime;

/// Relies on `OffsetDateTime::unix_timestamp`: the instant as whole seconds since
/// the Unix epoch.
pub assume_specification[ time::OffsetDateTime::unix_timestamp ](t: time::OffsetDateTime) -> i64;

/// The local calendar fields of the instant `unix_seconds` (seconds since the Unix
/// epoch) seen at a UTC offset of `offset_hours` whole hours.
pub uninterp spec fn local_time(unix_seconds: int, offset_hours: int) -> CalendarTime;

/// Relies on `OffsetDateTime::from_unix_timestamp`, `UtcOffset::from_hms`,
/// `OffsetDateTime::checked_to_offset`, the calendar getters `year`, `month`, `day`,
/// `hour`, `minute`, `second` (each within its calendar range, years within
/// `-9999..=9999` without the `large-dates` feature) and `From<Month> for u8`
/// (January being 1): the local fields of an instant at an offset, when that
/// local date is representable.
#[verifier::external_body]
fn calendar_at(unix_seconds: i64, hours: i8) -> (r: Option<CalendarTime>)
    requires
        -25 <= hours <= 25,
    ensures
        r matches Some(t) ==> t == local_time(unix_seconds as int, hours as int) && t.wf(),
{
    let utc = time::OffsetDateTime::from_unix_timestamp(unix_seconds).ok()?;
    let local = utc.checked_to_offset(time::UtcOffset::from_hms(hours, 0, 0).ok()?)?;
    Some(CalendarTime {
        year: local.year(),
        month: u8::from(local.month()),
        day: local.day(),
        hour: local.hour(),
        minute: local.minute(),
        second: local.second(),
    })
}

/// A local date and time of day, field by field.
#[derive(Clone, Copy, Debug, PartialEq, Eq)]
pub struct CalendarTime {
    pub year: i32,
    pub month: u8,
    pub day: u8,
    pub hour: u8,
    pub minute: u8,
    pub second: u8,
}

impl CalendarTime {
    /// Every field lies in its calendar range.
    pub open spec fn wf(&self) -> bool {
        &&& -9999 <= self.year <= 9999
        &&& 1 <= self.month <= 12
        &&& 1 <= self.day <= 31
        &&& self.hour < 24
        &&& self.minute < 60
        &&& self.second < 60
    }
}

/// The current local time at a whole-hour offset from UTC, or `None` when that
/// local date falls outside the years the clock can represent.
pub fn now_at_offset(hours: i8) -> (r: Option<CalendarTime>)
    requires
        -25 <= hours <= 25,
    ensures
        r matches Some(t) ==> t.wf() && exists|s: int| t == #[trigger] local_time(s, hours as int),
{
    let unix_seconds = time::OffsetDateTime::now_utc().unix_timestamp();
    calendar_at(unix_seconds, hours)
}

/// The character of a decimal digit.
pub open spec fn digit_char(d: int) -> char {
    if d == 0 { '0' }
    else if d == 1 { '1' }
    else if d == 2 { '2' }
    else if d == 3 { '3' }
    else if d == 4 { '4' }
    else if d == 5 { '5' }
    else if d == 6 { '6' }
    else if d == 7 { '7' }
    else if d == 8 { '8' }
    else { '9' }
}

/// `n` in decimal, zero-padded to two digits.
pub open spec fn two_digits(n: int) -> Seq<char> {
    seq![digit_char(n / 10), digit_char(n % 10)]
}

/// `n` in decimal, zero-padded to four digits.
pub open spec fn four_digits(n: int) -> Seq<char> {
    seq![digit_char(n / 1000), digit_char(n / 100 % 10), digit_char(n / 10 % 10), digit_char(n % 10)]
}

/// A year as four zero-padded digits, with a leading `-` before the common era.
pub open spec fn year_text(y: int) -> Seq<char> {
    if y < 0 {
        seq!['-'] + four_digits(-y)
    } else {
        four_digits(y)
    }
}

/// `YYYY-MM-DD HH:MM:SS`.
pub open spec fn timestamp_text(t: CalendarTime) -> Seq<char> {
    year_text(t.year as int) + seq!['-'] + two_digits(t.month as int) + seq!['-']
        + two_digits(t.day as int) + seq![' '] + two_digits(t.hour as int) + seq![':']
        + two_digits(t.minute as int) + seq![':'] + two_digits(t.second as int)
}

fn digit_str(d: u8) -> (r: &'static str)
    requires
        d < 10,
    ensures
        r@ == seq![digit_char(d as int)],
{
    proof {
        reveal_strlit("0");
        reveal_strlit("1");
        reveal_strlit("2");
        reveal_strlit("3");
        reveal_strlit("4");
        reveal_strlit("5");
        reveal_strlit("6");
        reveal_strlit("7");
        reveal_strlit("8");
        reveal_strlit("9");
    }
    if d == 0 { "0" }
    else if d == 1 { "1" }
    else if d == 2 { "2" }
    else if d == 3 { "3" }
    else if d == 4 { "4" }
    else if d == 5 { "5" }
    else if d == 6 { "6" }
    else if d == 7 { "7" }
    else if d == 8 { "8" }
    else { "9" }
}

fn push_two_digits(s: &mut String, n: u8)
    requires
        n < 100,
    ensures
        final(s)@ == old(s)@ + two_digits(n as int),
{
    s.append(digit_str(n / 10));
    s.append(digit_str(n % 10));
}

/// Renders a calendar time as `YYYY-MM-DD HH:MM:SS`.
pub fn format_timestamp(t: &CalendarTime) -> (r: String)
    requires
        t.wf(),
    ensures
        r@ == timestamp_text(*t),
{
    proof {
        reveal_strlit("-");
        reveal_strlit(" ");
        reveal_strlit(":");
        assert("-"@ =~= seq!['-']);
        assert(" "@ =~= seq![' ']);
        assert(":"@ =~= seq![':']);
    }
    let mut s = String::new();
    let magnitude: u32 = if t.year < 0 {
        s.append("-");
        (-t.year) as u32
    } else {
        t.year as u32
    };
    s.append(digit_str((magnitude / 1000) as u8));
    s.append(digit_str((magnitude / 100 % 10) as u8));
    s.append(digit_str((magnitude / 10 % 10) as u8));
    s.append(digit_str((magnitude % 10) as u8));
    s.append("-");
    push_two_digits(&mut s, t.month);
    s.append("-");
    push_two_digits(&mut s, t.day);
    s.append(" ");
    push_two_digits(&mut s, t.hour);
    s.append(":");
    push_two_digits(&mut s, t.minute);
    s.append(":");
    push_two_digits(&mut s, t.second);
    s
}

} // verus!
