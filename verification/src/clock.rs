//! Dates and durations as the history panel shows them.
//!
//! All of it is integer arithmetic on Unix time: no time zone data is needed.

use vstd::prelude::*;

use crate::config::prefixed;
use crate::text::{self, to_decimal, to_padded_int};

verus! {

// ---- The Gregorian calendar ------------------------------------------------

/// Whether `y` is a leap year.
pub open spec fn is_leap(y: int) -> bool {
    y % 4 == 0 && (y % 100 != 0 || y % 400 == 0)
}

/// The number of days of month `m` (1 to 12) of year `y`.
pub open spec fn days_in_month(y: int, m: int) -> int {
    if m == 2 {
        if is_leap(y) {
            29
        } else {
            28
        }
    } else if m == 4 || m == 6 || m == 9 || m == 11 {
        30
    } else {
        31
    }
}

/// Whether `y`-`m`-`d` is a date.
pub open spec fn is_date(y: int, m: int, d: int) -> bool {
    1 <= m <= 12 && 1 <= d <= days_in_month(y, m)
}

/// The number of days of the months of year `y` before month `m`.
pub open spec fn days_before_month(y: int, m: int) -> int
    decreases m,
{
    if m <= 1 {
        0
    } else {
        days_before_month(y, m - 1) + days_in_month(y, m - 1)
    }
}

/// The number of days from 1 January of year 0 to 1 January of year `y`: 365 for
/// each year, and one more for each leap year among them.
pub open spec fn days_before_year(y: int) -> int {
    365 * y + (y + 3) / 4 - (y + 99) / 100 + (y + 399) / 400
}

/// The number of days from 1 January 1970 to a date.
pub open spec fn day_number(y: int, m: int, d: int) -> int {
    days_before_year(y) + days_before_month(y, m) + d - 1 - days_before_year(1970)
}

/// A year has 366 days if it is a leap year and 365 if not.
pub proof fn year_length(y: int)
    ensures
        days_before_year(y + 1) - days_before_year(y) == if is_leap(y) {
            366int
        } else {
            365int
        },
{
    lemma_step4(y);
    lemma_step100(y);
    lemma_step400(y);
    assert(y % 100 == 0 ==> y % 4 == 0);
    assert(y % 400 == 0 ==> y % 100 == 0);
}

proof fn lemma_step4(y: int)
    ensures
        (y + 4) / 4 - (y + 3) / 4 == if y % 4 == 0 {
            1int
        } else {
            0int
        },
{
}

proof fn lemma_step100(y: int)
    ensures
        (y + 100) / 100 - (y + 99) / 100 == if y % 100 == 0 {
            1int
        } else {
            0int
        },
{
}

proof fn lemma_step400(y: int)
    ensures
        (y + 400) / 400 - (y + 399) / 400 == if y % 400 == 0 {
            1int
        } else {
            0int
        },
{
}

proof fn lemma_months(y: int)
    ensures
        days_before_month(y, 1) == 0,
        days_before_month(y, 2) == 31,
        ({
            let f = if is_leap(y) {
                29int
            } else {
                28int
            };
            &&& days_before_month(y, 3) == 31 + f
            &&& days_before_month(y, 4) == 62 + f
            &&& days_before_month(y, 5) == 92 + f
            &&& days_before_month(y, 6) == 123 + f
            &&& days_before_month(y, 7) == 153 + f
            &&& days_before_month(y, 8) == 184 + f
            &&& days_before_month(y, 9) == 215 + f
            &&& days_before_month(y, 10) == 245 + f
            &&& days_before_month(y, 11) == 276 + f
            &&& days_before_month(y, 12) == 306 + f
            &&& days_before_month(y, 13) == 337 + f
        }),
{
    reveal_with_fuel(days_before_month, 14);
}

proof fn lemma_years_grow(a: int, b: int)
    requires
        a <= b,
    ensures
        days_before_year(a) <= days_before_year(b),
    decreases b - a,
{
    if a < b {
        year_length(b - 1);
        lemma_years_grow(a, b - 1);
    }
}

proof fn lemma_day_in_year(y: int, m: int, d: int)
    requires
        is_date(y, m, d),
    ensures
        days_before_year(y) <= day_number(y, m, d) + days_before_year(1970) < days_before_year(
            y + 1,
        ),
{
    lemma_months(y);
    year_length(y);
}

/// No two dates have the same day number.
pub proof fn dates_are_distinct(y1: int, m1: int, d1: int, y2: int, m2: int, d2: int)
    requires
        is_date(y1, m1, d1),
        is_date(y2, m2, d2),
        day_number(y1, m1, d1) == day_number(y2, m2, d2),
    ensures
        y1 == y2 && m1 == m2 && d1 == d2,
{
    lemma_day_in_year(y1, m1, d1);
    lemma_day_in_year(y2, m2, d2);
    if y1 < y2 {
        lemma_years_grow(y1 + 1, y2);
    }
    if y2 < y1 {
        lemma_years_grow(y2 + 1, y1);
    }
    lemma_months(y1);
}

/// The day after a date that does not end its month has the next day number, and
/// so have the first of the next month and of the next year after the last day
/// of a month and of a year.
pub proof fn days_are_consecutive(y: int, m: int, d: int)
    requires
        is_date(y, m, d),
    ensures
        d < days_in_month(y, m) ==> day_number(y, m, d + 1) == day_number(y, m, d) + 1,
        d == days_in_month(y, m) && m < 12 ==> day_number(y, m + 1, 1) == day_number(y, m, d) + 1,
        d == 31 && m == 12 ==> day_number(y + 1, 1, 1) == day_number(y, m, d) + 1,
{
    lemma_months(y);
    lemma_months(y + 1);
    year_length(y);
}

/// A day count within a cycle of 400 years that begin in March: the year of the
/// cycle is the one whose days hold it.
proof fn lemma_year_of_era(doe: int)
    requires
        0 <= doe <= 146096,
    ensures
        ({
            let yoe = (doe - doe / 1460 + doe / 36524 - doe / 146096) / 365;
            let doy = doe - (365 * yoe + yoe / 4 - yoe / 100);
            &&& 0 <= yoe <= 399
            &&& 0 <= doy <= 365
            &&& doy == 365 ==> (yoe + 1) % 4 == 0 && ((yoe + 1) % 100 != 0 || yoe == 399)
        }),
{
    if doe < 146096 {
        // Centuries of 36524 days, in them groups of four years of 1461 days.
        let b = doe / 36524;
        let r = doe - 36524 * b;
        let q = r / 1461;
        let s = r - 1461 * q;
        let i = if s == 1460 {
            3
        } else {
            s / 365
        };
        let e = (24 * b + q + s) / 1460;
        assert(0 <= b <= 3 && 0 <= q <= 24 && 0 <= s <= 1460 && 0 <= i <= 3 && 0 <= e <= 1);
        assert(q == 24 ==> s < 1460);
        assert(doe / 1460 == 25 * b + q + e) by {
            assert(doe == 1460 * (25 * b + q) + (24 * b + q + s));
        }
        let n = doe - doe / 1460 + doe / 36524 - doe / 146096;
        let year = 100 * b + 4 * q + i;
        assert(n == 365 * (100 * b + 4 * q) + (s - e));
        assert(365 * i <= s - e < 365 * (i + 1));
        assert(n / 365 == year);
        assert(year / 4 == 25 * b + q);
        assert(year / 100 == b);
        assert(doe - (365 * year + year / 4 - year / 100) == s - 365 * i);
    }
}

proof fn lemma_month_of_year(doy: int)
    requires
        0 <= doy <= 365,
    ensures
        ({
            let mp = (5 * doy + 2) / 153;
            let first = (153 * mp + 2) / 5;
            &&& 0 <= mp <= 11
            &&& first == (if mp == 0 { 0int } else if mp == 1 { 31 } else if mp == 2 { 61 }
                else if mp == 3 { 92 } else if mp == 4 { 122 } else if mp == 5 { 153 }
                else if mp == 6 { 184 } else if mp == 7 { 214 } else if mp == 8 { 245 }
                else if mp == 9 { 275 } else if mp == 10 { 306 } else { 337 })
            &&& 0 <= doy - first <= 30
            &&& (mp == 1 || mp == 3 || mp == 6 || mp == 8) ==> doy - first <= 29
            &&& mp == 11 ==> doy - first <= 28
        }),
{
}

proof fn lemma_march_year(era: int, yoe: int)
    requires
        0 <= yoe <= 399,
    ensures
        ({
            let y = 400 * era + yoe;
            &&& days_before_year(y) + 59 + (if is_leap(y) {
                1int
            } else {
                0int
            }) == 146097 * era + 365 * yoe + yoe / 4 - yoe / 100 + 60
            &&& is_leap(y + 1) <==> (yoe + 1) % 4 == 0 && ((yoe + 1) % 100 != 0 || yoe == 399)
        }),
{
    let y = 400 * era + yoe;
    assert((y + 3) / 4 == 100 * era + (yoe + 3) / 4);
    assert((y + 99) / 100 == 4 * era + (yoe + 99) / 100);
    assert((y + 399) / 400 == era + (yoe + 399) / 400);
    assert(y % 4 == yoe % 4);
    assert(y % 100 == yoe % 100);
    assert(y % 400 == yoe);
    assert((y + 1) % 4 == (yoe + 1) % 4);
    assert((y + 1) % 100 == (yoe + 1) % 100);
    assert((y + 1) % 400 == (yoe + 1) % 400);
}

/// Day `doy` of the year that begins in March of year `400 * era + yoe`.
proof fn lemma_march_date(era: int, yoe: int, doy: int)
    requires
        0 <= yoe <= 399,
        0 <= doy <= 365,
        doy == 365 ==> (yoe + 1) % 4 == 0 && ((yoe + 1) % 100 != 0 || yoe == 399),
    ensures
        ({
            let mp = (5 * doy + 2) / 153;
            let d = doy - (153 * mp + 2) / 5 + 1;
            let m = if mp < 10 {
                mp + 3
            } else {
                mp - 9
            };
            let y = 400 * era + yoe + if m <= 2 {
                1int
            } else {
                0int
            };
            &&& is_date(y, m, d)
            &&& day_number(y, m, d) == 146097 * era + 365 * yoe + yoe / 4 - yoe / 100 + doy - 719468
        }),
{
    let y = 400 * era + yoe;
    lemma_month_of_year(doy);
    lemma_months(y);
    lemma_months(y + 1);
    year_length(y);
    lemma_march_year(era, yoe);
    assert(days_before_year(1970) == 719528);
}

/// The date that lies `z` days after 1 January 1970.
pub fn civil_from_days(z: i64) -> (r: (i64, u32, u32))
    requires
        z <= i64::MAX - 719468,
    ensures
        is_date(r.0 as int, r.1 as int, r.2 as int),
        day_number(r.0 as int, r.1 as int, r.2 as int) == z,
{
    let z0: i64 = z + 719_468;
    let era: i64 = if z0 >= 0 {
        z0 / 146_097
    } else {
        -((146_096 - z0) / 146_097)
    };
    assert(0 <= z0 - era * 146097 <= 146096);
    let doe: i64 = z0 - era * 146_097;
    proof {
        lemma_year_of_era(doe as int);
    }
    let yoe: i64 = (doe - doe / 1460 + doe / 36_524 - doe / 146_096) / 365;
    let march_year: i64 = yoe + era * 400;
    let doy: i64 = doe - (365 * yoe + yoe / 4 - yoe / 100);
    proof {
        lemma_month_of_year(doy as int);
    }
    let mp: i64 = (5 * doy + 2) / 153;
    let d: i64 = doy - (153 * mp + 2) / 5 + 1;
    let m: i64 = if mp < 10 {
        mp + 3
    } else {
        mp - 9
    };
    let y: i64 = if m <= 2 {
        march_year + 1
    } else {
        march_year
    };
    proof {
        lemma_march_date(era as int, yoe as int, doy as int);
    }
    (y, m as u32, d as u32)
}

// ---- Labels ----------------------------------------------------------------

/// The date of `epoch` and the time of day, in UTC, to the minute.
pub open spec fn utc_label(epoch: int, y: int, m: int, d: int) -> Seq<char> {
    let second = epoch % 86400;
    text::padded_int(y, 4) + "-"@ + text::padded_int(m, 2) + "-"@ + text::padded_int(d, 2) + " "@
        + text::padded_int(second / 3600, 2) + ":"@ + text::padded_int((second % 3600) / 60, 2)
        + " UTC"@
}

/// An absolute time such as "2026-06-11 21:56 UTC".
pub fn format_utc(epoch: i64) -> (r: String)
    ensures
        exists|y: int, m: int, d: int|
            #![trigger is_date(y, m, d)]
            is_date(y, m, d) && day_number(y, m, d) == epoch as int / 86400 && r@ == utc_label(
                epoch as int,
                y,
                m,
                d,
            ),
{
    let days: i64 = if epoch >= 0 {
        epoch / 86_400
    } else {
        -((-(epoch + 1)) / 86_400) - 1
    };
    assert(days == epoch as int / 86400);
    let second: i64 = if epoch >= 0 {
        epoch % 86_400
    } else {
        86_399 - (-(epoch + 1)) % 86_400
    };
    assert(second == epoch as int % 86400);
    let (y, m, d) = civil_from_days(days);
    let mut r = to_padded_int(y, 4);
    r.append("-");
    r.append(to_padded_int(m as i64, 2).as_str());
    r.append("-");
    r.append(to_padded_int(d as i64, 2).as_str());
    r.append(" ");
    r.append(to_padded_int(second / 3600, 2).as_str());
    r.append(":");
    r.append(to_padded_int((second % 3600) / 60, 2).as_str());
    r.append(" UTC");
    assert(is_date(y as int, m as int, d as int));
    r
}

/// How long ago something was, `secs` seconds being the time since.
pub open spec fn relative_label(secs: int) -> Seq<char> {
    if secs < 5 {
        "just now"@
    } else if secs < 60 {
        text::decimal(secs as nat) + "s ago"@
    } else if secs < 3600 {
        text::decimal((secs / 60) as nat) + "m ago"@
    } else if secs < 86400 {
        text::decimal((secs / 3600) as nat) + "h ago"@
    } else if secs < 172800 {
        "yesterday"@
    } else {
        text::decimal((secs / 86400) as nat) + "d ago"@
    }
}

fn count_of(n: i64, unit: &str) -> (r: String)
    requires
        n >= 0,
    ensures
        r@ == text::decimal(n as nat) + unit@,
{
    prefixed(to_decimal(n as u64).as_str(), unit)
}

/// A short label for how long ago something was; what lies in the future was
/// "just now".
pub fn format_relative(secs: i64) -> (r: String)
    ensures
        r@ == relative_label(secs as int),
{
    if secs < 5 {
        "just now".to_owned()
    } else if secs < 60 {
        count_of(secs, "s ago")
    } else if secs < 3600 {
        count_of(secs / 60, "m ago")
    } else if secs < 86_400 {
        count_of(secs / 3600, "h ago")
    } else if secs < 172_800 {
        "yesterday".to_owned()
    } else {
        count_of(secs / 86_400, "d ago")
    }
}

/// How long ago `created_at` was, at `now`.
pub fn age_label(now: i64, created_at: i64) -> (r: String)
    ensures
        r@ == relative_label(now - created_at),
{
    match now.checked_sub(created_at) {
        Some(secs) => format_relative(secs),
        None => {
            if now < created_at {
                "just now".to_owned()
            } else {
                let days: i128 = (now as i128 - created_at as i128) / 86_400;
                prefixed(to_decimal(days as u64).as_str(), "d ago")
            }
        },
    }
}

/// Unix time in seconds from the clock's reading: `since_epoch` is `None` for a
/// clock before 1970, which counts as 0. A reading beyond `i64` wraps.
pub fn now_unix(since_epoch: Option<u64>) -> (r: i64)
    ensures
        match since_epoch {
            Some(s) => r == s as i64,
            None => r == 0,
        },
{
    match since_epoch {
        Some(s) => s as i64,
        None => 0,
    }
}

// ---- More laws -------------------------------------------------------------

/// A year that four does not divide is no leap year; of the others those of a full
/// century are, if four divides the century, and all the rest are. The pattern repeats
/// every 400 years.
pub proof fn leap_years_are_gregorian(y: int, century: int)
    ensures
        y % 4 != 0 ==> !is_leap(y),
        y % 4 == 0 && y % 100 != 0 ==> is_leap(y),
        is_leap(100 * century) <==> century % 4 == 0,
        is_leap(y + 400) == is_leap(y),
{
    assert((100 * century) % 100 == 0);
    assert((100 * century) % 400 == 0 <==> century % 4 == 0);
}

/// Thirty days have April, June, September and November, February has 28 or in a leap
/// year 29, all the rest have 31; the days of the months make up the year.
pub proof fn months_make_up_the_year(y: int)
    ensures
        forall|m: int|
            1 <= m <= 12 && m != 2 && m != 4 && m != 6 && m != 9 && m != 11 ==> #[trigger]
                days_in_month(y, m) == 31,
        days_in_month(y, 4) == 30 && days_in_month(y, 6) == 30 && days_in_month(y, 9) == 30
            && days_in_month(y, 11) == 30,
        days_in_month(y, 2) == (if is_leap(y) {
            29int
        } else {
            28
        }),
        day_number(y + 1, 1, 1) - day_number(y, 1, 1) == (if is_leap(y) {
            366int
        } else {
            365
        }),
{
    lemma_months(y);
    lemma_months(y + 1);
    year_length(y);
}

/// Days are counted from 1 January 1970, and 400 years are 146097 days, on whatever
/// date they begin.
pub proof fn days_count_from_the_epoch(y: int, m: int, d: int)
    requires
        is_date(y, m, d),
    ensures
        day_number(1970, 1, 1) == 0,
        day_number(y + 400, m, d) == day_number(y, m, d) + 146097,
        is_date(y + 400, m, d),
{
    lemma_cycle(y);
    lemma_month_cycle(y, m);
}

proof fn lemma_cycle(y: int)
    ensures
        days_before_year(y + 400) == days_before_year(y) + 146097,
{
    assert((y + 400 + 3) / 4 == (y + 3) / 4 + 100);
    assert((y + 400 + 99) / 100 == (y + 99) / 100 + 4);
    assert((y + 400 + 399) / 400 == (y + 399) / 400 + 1);
}

proof fn lemma_month_cycle(y: int, m: int)
    ensures
        is_leap(y + 400) == is_leap(y),
        days_in_month(y + 400, m) == days_in_month(y, m),
        days_before_month(y + 400, m) == days_before_month(y, m),
    decreases m,
{
    assert((y + 400) % 4 == y % 4 && (y + 400) % 100 == y % 100 && (y + 400) % 400 == y % 400);
    if m > 1 {
        lemma_month_cycle(y, m - 1);
    }
}

/// A label shows the hour and the minute of the day; the seconds make no difference.
pub proof fn labels_show_hour_and_minute(
    day: int,
    hour: int,
    minute: int,
    second: int,
    y: int,
    m: int,
    d: int,
)
    requires
        0 <= hour < 24,
        0 <= minute < 60,
        0 <= second < 60,
    ensures
        utc_label(86400 * day + 3600 * hour + 60 * minute + second, y, m, d) == text::padded_int(
            y,
            4,
        ) + "-"@ + text::padded_int(m, 2) + "-"@ + text::padded_int(d, 2) + " "@
            + text::padded_int(hour, 2) + ":"@ + text::padded_int(minute, 2) + " UTC"@,
{
    let epoch = 86400 * day + 3600 * hour + 60 * minute + second;
    assert(epoch % 86400 == 3600 * hour + 60 * minute + second);
}

/// An age is given in the largest unit that it holds whole: seconds, minutes, hours,
/// one day as "yesterday", days. What is younger than five seconds is "just now".
pub proof fn ages_are_told_in_whole_units(days: int, hours: int, minutes: int, seconds: int)
    requires
        0 <= days,
        0 <= hours < 24,
        0 <= minutes < 60,
        0 <= seconds < 60,
    ensures
        ({
            let t = relative_label(86400 * days + 3600 * hours + 60 * minutes + seconds);
            if days >= 2 {
                t == text::decimal(days as nat) + "d ago"@
            } else if days == 1 {
                t == "yesterday"@
            } else if hours > 0 {
                t == text::decimal(hours as nat) + "h ago"@
            } else if minutes > 0 {
                t == text::decimal(minutes as nat) + "m ago"@
            } else if seconds >= 5 {
                t == text::decimal(seconds as nat) + "s ago"@
            } else {
                t == "just now"@
            }
        }),
{
    let secs = 86400 * days + 3600 * hours + 60 * minutes + seconds;
    assert(secs / 86400 == days);
    assert(days == 0 ==> secs / 3600 == hours);
    assert(days == 0 && hours == 0 ==> secs / 60 == minutes);
}

/// What lies in the future, by a clock that was set back, is "just now".
pub proof fn the_future_is_just_now(secs: int)
    requires
        secs < 0,
    ensures
        relative_label(secs) == "just now"@,
{
}

} // verus!
