//! The trailing timestamp of the composite status line: a fixed
//! locale-independent rendering of the local date and time.

use chrono::{Datelike, Timelike};
use vstd::prelude::*;

use crate::text::{chars_to_string, pad2, two_digit_chars};

verus! {

/// The three-letter English weekday abbreviation, counted from Monday.
pub open spec fn weekday_name(d: u8) -> Seq<char> {
    if d == 0 {
        "Mon"@
    } else if d == 1 {
        "Tue"@
    } else if d == 2 {
        "Wed"@
    } else if d == 3 {
        "Thu"@
    } else if d == 4 {
        "Fri"@
    } else if d == 5 {
        "Sat"@
    } else {
        "Sun"@
    }
}

/// The three-letter English month abbreviation, counted from January as 1.
pub open spec fn month_name(m: u8) -> Seq<char> {
    if m <= 1 {
        "Jan"@
    } else if m == 2 {
        "Feb"@
    } else if m == 3 {
        "Mar"@
    } else if m == 4 {
        "Apr"@
    } else if m == 5 {
        "May"@
    } else if m == 6 {
        "Jun"@
    } else if m == 7 {
        "Jul"@
    } else if m == 8 {
        "Aug"@
    } else if m == 9 {
        "Sep"@
    } else if m == 10 {
        "Oct"@
    } else if m == 11 {
        "Nov"@
    } else {
        "Dec"@
    }
}

/// The timestamp rendering: calendar glyph, weekday, month, zero-padded day,
/// clock glyph, and the time as `HH:MM:SS`.
pub open spec fn stamp_text(wd: u8, mon: u8, day: u8, h: u8, mi: u8, s: u8) -> Seq<char> {
    "🗓️ "@ + weekday_name(wd) + " "@ + month_name(mon) + " "@ + pad2(day as nat) + " 🕛 "@ + pad2(
        h as nat,
    ) + ":"@ + pad2(mi as nat) + ":"@ + pad2(s as nat)
}

fn weekday_str(wd: u8) -> (r: &'static str)
    ensures
        r@ == weekday_name(wd),
{
    match wd {
        0 => "Mon",
        1 => "Tue",
        2 => "Wed",
        3 => "Thu",
        4 => "Fri",
        5 => "Sat",
        _ => "Sun",
    }
}

fn month_str(mon: u8) -> (r: &'static str)
    ensures
        r@ == month_name(mon),
{
    match mon {
        0 | 1 => "Jan",
        2 => "Feb",
        3 => "Mar",
        4 => "Apr",
        5 => "May",
        6 => "Jun",
        7 => "Jul",
        8 => "Aug",
        9 => "Sep",
        10 => "Oct",
        11 => "Nov",
        _ => "Dec",
    }
}

/// Render the timestamp from the clock's parts: weekday as days from Monday,
/// month and day of month, and the time of day.
pub fn format_timestamp(wd: u8, mon: u8, day: u8, h: u8, mi: u8, s: u8) -> (r: String)
    ensures
        r@ == stamp_text(wd, mon, day, h, mi, s),
{
    let mut out = String::from_str("🗓️ ");
    out.append(weekday_str(wd));
    out.append(" ");
    out.append(month_str(mon));
    out.append(" ");
    let day_text = chars_to_string(&two_digit_chars(day as u64));
    out.append(day_text.as_str());
    out.append(" 🕛 ");
    let hour_text = chars_to_string(&two_digit_chars(h as u64));
    out.append(hour_text.as_str());
    out.append(":");
    let minute_text = chars_to_string(&two_digit_chars(mi as u64));
    out.append(minute_text.as_str());
    out.append(":");
    let second_text = chars_to_string(&two_digit_chars(s as u64));
    out.append(second_text.as_str());
    out
}

/// Relies on `chrono::Local::now` and the `Datelike`/`Timelike` accessors of
/// the returned date-time: `num_days_from_monday` is 0 to 6, `month` 1 to
/// 12, `day` 1 to 31, `hour` 0 to 23, `minute` and `second` 0 to 59. The
/// values depend on the clock, so nothing more is promised of them.
#[verifier::external_body]
fn local_clock_parts() -> (r: (u8, u8, u8, u8, u8, u8))
    ensures
        r.0 < 7,
        1 <= r.1 <= 12,
        1 <= r.2 <= 31,
        r.3 < 24,
        r.4 < 60,
        r.5 < 60,
{
    let now = chrono::Local::now();
    (
        now.weekday().num_days_from_monday() as u8,
        now.month() as u8,
        now.day() as u8,
        now.hour() as u8,
        now.minute() as u8,
        now.second() as u8,
    )
}

/// Render the local time now. The clock decides the parts, so only their
/// ranges are known; the text is the fixed rendering of some such parts.
pub fn local_timestamp() -> (r: String)
    ensures
        exists|wd: u8, mon: u8, day: u8, h: u8, mi: u8, s: u8|
            wd < 7 && 1 <= mon <= 12 && 1 <= day <= 31 && h < 24 && mi < 60 && s < 60 && r@
                == #[trigger] stamp_text(wd, mon, day, h, mi, s),
{
    let (wd, mon, day, h, mi, s) = local_clock_parts();
    let r = format_timestamp(wd, mon, day, h, mi, s);
    proof {
        assert(r@ == stamp_text(wd, mon, day, h, mi, s));
    }
    r
}

} // verus!
