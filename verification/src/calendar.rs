//! Unix time as a date of the proleptic Gregorian calendar, in UTC.

use vstd::prelude::*;

use crate::text::dec;
use crate::text::dec_fixed;
use crate::text::decimal;
use crate::text::decimal_fixed;
use crate::text::lemma_fixed_len;
use crate::text::lemma_fixed_sorted;
use crate::text::lemma_four_digits;
use crate::text::lemma_sorted_by_beginnings;
use crate::text::lemma_sorted_by_endings;
use crate::text::lemma_sorted_texts_differ;
use crate::text::sorts_before;
use crate::text::ten_to;

verus! {

/// Whether a year has a 29th of February.
pub open spec fn is_leap(y: int) -> bool {
    y % 4 == 0 && (y % 100 != 0 || y % 400 == 0)
}

/// How many days a month has.
pub open spec fn month_len(y: int, m: int) -> int {
    if m == 2 {
        if is_leap(y) {
            29
        } else {
            28
        }
    } else if m == 4 || m == 6 || m == 9 || m == 11 {
        30
    } else {
        31
    }
}

/// Whether the calendar has this day.
pub open spec fn is_date(y: int, m: int, d: int) -> bool {
    1 <= m <= 12 && 1 <= d <= month_len(y, m)
}

/// How many days lie between the first of January of year 1 and that of `y`.
pub open spec fn days_before_year(y: int) -> int {
    365 * (y - 1) + (y - 1) / 4 - (y - 1) / 100 + (y - 1) / 400
}

/// How many days of the year come before a month.
pub open spec fn days_before_month(y: int, m: int) -> int
    decreases m,
{
    if m <= 1 {
        0
    } else {
        days_before_month(y, m - 1) + month_len(y, m - 1)
    }
}

/// How many days after the first of January 1970 a date is.
pub open spec fn day_number(y: int, m: int, d: int) -> int {
    days_before_year(y) + days_before_month(y, m) + d - 1 - days_before_year(1970)
}

/// A year's length is the distance to the next.
proof fn lemma_year_len(y: int)
    ensures
        days_before_year(y + 1) == days_before_year(y) + 365 + (if is_leap(y) {
            1int
        } else {
            0
        }),
{
}

/// The days before each month, spelled out.
proof fn lemma_months(y: int)
    ensures
        days_before_month(y, 1) == 0,
        days_before_month(y, 2) == 31,
        ({
            let b = if is_leap(y) {
                60int
            } else {
                59
            };
            &&& days_before_month(y, 3) == b
            &&& days_before_month(y, 4) == b + 31
            &&& days_before_month(y, 5) == b + 61
            &&& days_before_month(y, 6) == b + 92
            &&& days_before_month(y, 7) == b + 122
            &&& days_before_month(y, 8) == b + 153
            &&& days_before_month(y, 9) == b + 184
            &&& days_before_month(y, 10) == b + 214
            &&& days_before_month(y, 11) == b + 245
            &&& days_before_month(y, 12) == b + 275
        }),
{
    reveal_with_fuel(days_before_month, 13);
}

/// The year before that begins in March: where it stands in its period of four
/// hundred years, split by centuries and periods of four.
proof fn lemma_march_year(era: int, c: int, q: int, n: int)
    requires
        0 <= c <= 3,
        0 <= q <= 24,
        0 <= n <= 3,
    ensures
        ({
            let y = era * 400 + c * 100 + q * 4 + n;
            &&& days_before_year(y + 1) == era * 146_097 + c * 36_524 + q * 1461 + n * 365
            &&& is_leap(y + 1) == (n == 3 && (q == 24 ==> c == 3))
        }),
{
    let y = era * 400 + c * 100 + q * 4 + n;
    assert(y / 4 == era * 100 + c * 25 + q);
    assert(y / 100 == era * 4 + c);
    assert(y / 400 == era);
}

/// The periods of four hundred years before a day, and the days since the last.
fn split_eras(z: i64) -> (r: (i64, u64))
    requires
        z > i64::MIN,
    ensures
        z == r.0 * 146_097 + r.1,
        r.1 < 146_097,
        -0x1_0000_0000_0000 < r.0 < 0x1_0000_0000_0000,
{
    if z >= 0 {
        let day: u64 = z as u64;
        ((day / 146_097) as i64, day % 146_097)
    } else {
        let back: u64 = (-z) as u64;
        let eras: u64 = (back + 146_096) / 146_097;
        (-(eras as i64), eras * 146_097 - back)
    }
}

/// The century, the period of four years, the year and the day within a period
/// of four hundred years that begins in March.
fn split_years(day: u64) -> (r: (u64, u64, u64, u64))
    requires
        day < 146_097,
    ensures
        r.0 <= 3,
        r.1 <= 24,
        r.2 <= 3,
        day == r.0 * 36_524 + r.1 * 1461 + r.2 * 365 + r.3,
        r.3 <= 365,
        r.3 == 365 ==> r.2 == 3 && (r.1 == 24 ==> r.0 == 3),
{
    let century: u64 = if day / 36_524 > 3 {
        3
    } else {
        day / 36_524
    };
    let rest: u64 = day - century * 36_524;
    let four: u64 = rest / 1461;
    let rest: u64 = rest - four * 1461;
    let nth: u64 = if rest / 365 > 3 {
        3
    } else {
        rest / 365
    };
    (century, four, nth, rest - nth * 365)
}

/// How many days of a year that begins in March come before its `m`th month.
spec fn days_before_march_month(m: int) -> int {
    (153 * m + 2) / 5
}

/// The month of a year that begins in March, and the day of the month.
fn split_months(day: u64) -> (r: (u64, u64))
    requires
        day <= 365,
    ensures
        r.0 <= 11,
        day + 1 == days_before_march_month(r.0 as int) + r.1,
        r.1 >= 1,
        r.0 < 11 ==> day < days_before_march_month(r.0 + 1),
{
    let month: u64 = (5 * day + 2) / 153;
    (month, day + 1 - (153 * month + 2) / 5)
}

/// The date of a day counted from the first of March of a year.
proof fn lemma_date(y: int, day: int, m: int, d: int)
    requires
        0 <= day <= 365,
        day == 365 ==> is_leap(y + 1),
        0 <= m <= 11,
        day + 1 == days_before_march_month(m) + d,
        d >= 1,
        m < 11 ==> day < days_before_march_month(m + 1),
    ensures
        m < 10 ==> is_date(y, m + 3, d) && day_number(y, m + 3, d) == days_before_year(y + 1) - 306
            + day - 719_162,
        m >= 10 ==> is_date(y + 1, m - 9, d) && day_number(y + 1, m - 9, d) == days_before_year(
            y + 1,
        ) - 306 + day - 719_162,
{
    lemma_year_len(y);
    lemma_months(y);
    lemma_months(y + 1);
    assert(days_before_year(1970) == 719_162);
}

/// The date that lies `z` days after the first of January 1970.
pub fn civil_from_days(z: i64) -> (r: (i64, u32, u32))
    requires
        z <= i64::MAX - 719_468,
    ensures
        is_date(r.0 as int, r.1 as int, r.2 as int),
        day_number(r.0 as int, r.1 as int, r.2 as int) == z,
{
    // Counted from the first of March of year 0: with the leap day at the end
    // of the year, every period is a whole number of years.
    let (era, in_era): (i64, u64) = split_eras(z + 719_468);
    let (century, four, nth, in_year): (u64, u64, u64, u64) = split_years(in_era);
    let (month, day): (u64, u64) = split_months(in_year);
    let year: i64 = era * 400 + (century * 100 + four * 4 + nth) as i64;
    proof {
        lemma_march_year(era as int, century as int, four as int, nth as int);
        lemma_date(year as int, in_year as int, month as int, day as int);
    }
    if month < 10 {
        (year, (month + 3) as u32, day as u32)
    } else {
        (year + 1, (month - 9) as u32, day as u32)
    }
}

/// Later years begin later.
proof fn lemma_years_ascend(a: int, b: int)
    requires
        a <= b,
    ensures
        days_before_year(a) <= days_before_year(b),
    decreases b - a,
{
    if a < b {
        lemma_years_ascend(a, b - 1);
        lemma_year_len(b - 1);
    }
}

/// A date lies within its year, and within its month.
proof fn lemma_within_year(y: int, m: int, d: int)
    requires
        is_date(y, m, d),
    ensures
        0 <= days_before_month(y, m) + d - 1 < 365 + (if is_leap(y) {
            1int
        } else {
            0
        }),
        m < 12 ==> days_before_month(y, m) + d - 1 < days_before_month(y, m + 1),
{
    lemma_months(y);
}

/// Later months begin later.
proof fn lemma_months_ascend(y: int, a: int, b: int)
    requires
        1 <= a <= b <= 12,
    ensures
        days_before_month(y, a) <= days_before_month(y, b),
{
    lemma_months(y);
}

/// Two dates that are equally far from the first of January 1970 are the same
/// date.
pub proof fn day_numbers_are_unique(y: int, m: int, d: int, y2: int, m2: int, d2: int)
    requires
        is_date(y, m, d),
        is_date(y2, m2, d2),
        day_number(y, m, d) == day_number(y2, m2, d2),
    ensures
        y == y2 && m == m2 && d == d2,
{
    lemma_within_year(y, m, d);
    lemma_within_year(y2, m2, d2);
    lemma_year_len(y);
    lemma_year_len(y2);
    if y < y2 {
        lemma_years_ascend(y + 1, y2);
    } else if y2 < y {
        lemma_years_ascend(y2 + 1, y);
    }
    assert(y == y2);
    if m < m2 {
        lemma_months_ascend(y, m + 1, m2);
    } else if m2 < m {
        lemma_months_ascend(y, m2 + 1, m);
    }
}

/// A day later on the calendar has a greater number.
pub proof fn later_dates_have_greater_numbers(
    y: int,
    m: int,
    d: int,
    y2: int,
    m2: int,
    d2: int,
)
    requires
        is_date(y, m, d),
        is_date(y2, m2, d2),
        y < y2 || (y == y2 && (m < m2 || (m == m2 && d < d2))),
    ensures
        day_number(y, m, d) < day_number(y2, m2, d2),
{
    lemma_within_year(y, m, d);
    lemma_within_year(y2, m2, d2);
    lemma_year_len(y);
    if y < y2 {
        lemma_years_ascend(y + 1, y2);
    } else if m < m2 {
        lemma_months_ascend(y, m + 1, m2);
    }
}

/// Whether a date lies `z` days after the first of January 1970.
pub open spec fn has_number(date: (int, int, int), z: int) -> bool {
    is_date(date.0, date.1, date.2) && day_number(date.0, date.1, date.2) == z
}

/// The date that lies `z` days after the first of January 1970.
pub open spec fn date_of(z: int) -> (int, int, int) {
    choose|date: (int, int, int)| has_number(date, z)
}

/// `YYYY-MM-DD`.
pub open spec fn date_text(date: (int, int, int)) -> Seq<char> {
    dec(date.0 as nat) + "-"@ + dec_fixed(date.1 as nat, 2) + "-"@ + dec_fixed(date.2 as nat, 2)
}

/// `HH:MM`.
pub open spec fn clock_text(secs: nat) -> Seq<char> {
    dec_fixed(secs % 86_400 / 3600, 2) + ":"@ + dec_fixed(secs % 3600 / 60, 2)
}

/// `YYYY-MM-DD HH:MM UTC`.
pub open spec fn utc_text(secs: nat) -> Seq<char> {
    date_text(date_of((secs / 86_400) as int)) + " "@ + clock_text(secs) + " UTC"@
}

/// Every day has a date.
#[verifier::spinoff_prover]
proof fn lemma_date_exists(z: int)
    ensures
        has_number(date_of(z), z),
{
    let era = (z + 719_468) / 146_097;
    let in_era = (z + 719_468) % 146_097;
    let century = if in_era / 36_524 > 3 {
        3
    } else {
        in_era / 36_524
    };
    let in_century = in_era - century * 36_524;
    let four = in_century / 1461;
    let in_four = in_century - four * 1461;
    let nth = if in_four / 365 > 3 {
        3
    } else {
        in_four / 365
    };
    let in_year = in_four - nth * 365;
    let month = (5 * in_year + 2) / 153;
    let day = in_year + 1 - days_before_march_month(month);
    let year = era * 400 + century * 100 + four * 4 + nth;
    lemma_march_year(era, century, four, nth);
    lemma_date(year, in_year, month, day);
    if month < 10 {
        assert(has_number((year, month + 3, day), z));
    } else {
        assert(has_number((year + 1, month - 9, day), z));
    }
}

/// A day from 1970 to 9999 has a year of four digits.
proof fn lemma_four_digit_year(z: int)
    requires
        0 <= z < 2_932_897,
    ensures
        has_number(date_of(z), z),
        1970 <= date_of(z).0 <= 9999,
{
    lemma_date_exists(z);
    let (y, m, d) = date_of(z);
    lemma_within_year(y, m, d);
    lemma_year_len(y);
    if y < 1970 {
        lemma_years_ascend(y + 1, 1970);
    }
    if y > 9999 {
        lemma_years_ascend(10_000, y);
        assert(days_before_year(10_000) - days_before_year(1970) == 2_932_897);
    }
}

/// The parts of a date's text, where the year has four digits.
proof fn lemma_date_text(date: (int, int, int))
    requires
        1970 <= date.0 <= 9999,
    ensures
        date_text(date).len() == 10,
        date_text(date) == dec_fixed(date.0 as nat, 4) + "-"@ + dec_fixed(date.1 as nat, 2) + "-"@
            + dec_fixed(date.2 as nat, 2),
        "-"@.len() == 1,
{
    reveal_strlit("-");
    lemma_four_digits(date.0 as nat);
    lemma_fixed_len(date.0 as nat, 4);
    lemma_fixed_len(date.1 as nat, 2);
    lemma_fixed_len(date.2 as nat, 2);
}

/// A time of day takes five characters.
proof fn lemma_clock_len(secs: nat)
    ensures
        clock_text(secs).len() == 5,
{
    reveal_strlit(":");
    lemma_fixed_len(secs % 86_400 / 3600, 2);
    lemma_fixed_len(secs % 3600 / 60, 2);
}

/// The texts of two days sort as the days do.
proof fn lemma_dates_sorted(z: int, z2: int)
    requires
        0 <= z < z2 < 2_932_897,
    ensures
        sorts_before(date_text(date_of(z)), date_text(date_of(z2))),
{
    lemma_four_digit_year(z);
    lemma_four_digit_year(z2);
    let (y, m, d) = date_of(z);
    let (y2, m2, d2) = date_of(z2);
    lemma_date_text((y, m, d));
    lemma_date_text((y2, m2, d2));
    if y2 < y || (y2 == y && (m2 < m || (m2 == m && d2 < d))) {
        later_dates_have_greater_numbers(y2, m2, d2, y, m, d);
    }
    let (ty, ty2) = (dec_fixed(y as nat, 4), dec_fixed(y2 as nat, 4));
    let (tm, tm2) = (dec_fixed(m as nat, 2), dec_fixed(m2 as nat, 2));
    let (td, td2) = (dec_fixed(d as nat, 2), dec_fixed(d2 as nat, 2));
    lemma_fixed_len(y as nat, 4);
    lemma_fixed_len(y2 as nat, 4);
    lemma_fixed_len(m as nat, 2);
    lemma_fixed_len(m2 as nat, 2);
    reveal_with_fuel(ten_to, 5);
    if y < y2 {
        lemma_fixed_sorted(y as nat, y2 as nat, 4);
        lemma_sorted_by_beginnings(ty, ty2, "-"@, "-"@);
        lemma_sorted_by_beginnings(ty + "-"@, ty2 + "-"@, tm, tm2);
        lemma_sorted_by_beginnings(ty + "-"@ + tm, ty2 + "-"@ + tm2, "-"@, "-"@);
        lemma_sorted_by_beginnings(ty + "-"@ + tm + "-"@, ty2 + "-"@ + tm2 + "-"@, td, td2);
    } else if m < m2 {
        lemma_fixed_sorted(m as nat, m2 as nat, 2);
        lemma_sorted_by_endings(ty + "-"@, tm, tm2);
        lemma_sorted_by_beginnings(ty + "-"@ + tm, ty2 + "-"@ + tm2, "-"@, "-"@);
        lemma_sorted_by_beginnings(ty + "-"@ + tm + "-"@, ty2 + "-"@ + tm2 + "-"@, td, td2);
    } else {
        lemma_fixed_sorted(d as nat, d2 as nat, 2);
        lemma_sorted_by_endings(ty + "-"@ + tm + "-"@, td, td2);
    }
}

/// The day, the hour and the minute, from the minutes since the first of
/// January 1970.
#[verifier::spinoff_prover]
proof fn lemma_clock_parts(secs: nat)
    ensures
        secs / 86_400 == secs / 60 / 1440,
        secs % 86_400 / 3600 == secs / 60 % 1440 / 60,
        secs % 3600 / 60 == secs / 60 % 60,
{
    let day = secs / 60 / 1440;
    let hour = secs / 60 % 1440 / 60;
    let minute = secs / 60 % 1440 % 60;
    let second = secs % 60;
    assert(secs / 60 == 1440 * day + 60 * hour + minute);
    assert(secs == 86_400 * day + 3600 * hour + 60 * minute + second);
    assert(0 <= hour < 24 && 0 <= minute < 60 && 0 <= second < 60);
    assert(secs / 86_400 == day);
    assert(secs % 86_400 == 3600 * hour + 60 * minute + second);
    assert(secs % 86_400 / 3600 == hour);
    assert(secs % 3600 == 60 * minute + second) by {
        assert(secs == 3600 * (24 * day + hour) + (60 * minute + second));
    }
    assert(secs % 3600 / 60 == minute);
    assert(secs / 60 % 60 == minute) by {
        assert(secs / 60 == 60 * (24 * day + hour) + minute);
    }
}

/// The texts of two times of one day sort as the minutes do.
#[verifier::spinoff_prover]
proof fn lemma_clocks_sorted(s: nat, t: nat)
    requires
        s / 86_400 == t / 86_400,
        s / 60 < t / 60,
    ensures
        sorts_before(clock_text(s), clock_text(t)),
{
    let (h, h2) = (s % 86_400 / 3600, t % 86_400 / 3600);
    let (m, m2) = (s % 3600 / 60, t % 3600 / 60);
    let (th, th2) = (dec_fixed(h, 2), dec_fixed(h2, 2));
    let (tm, tm2) = (dec_fixed(m, 2), dec_fixed(m2, 2));
    lemma_fixed_len(h, 2);
    lemma_fixed_len(h2, 2);
    lemma_clock_parts(s);
    lemma_clock_parts(t);
    reveal_with_fuel(ten_to, 3);
    if h < h2 {
        lemma_fixed_sorted(h, h2, 2);
        lemma_sorted_by_beginnings(th, th2, ":"@, ":"@);
        lemma_sorted_by_beginnings(th + ":"@, th2 + ":"@, tm, tm2);
    } else {
        assert(h == h2);
        lemma_fixed_sorted(m, m2, 2);
        lemma_sorted_by_endings(th + ":"@, tm, tm2);
    }
}

/// Every fourth year is a leap year, but for the hundredth, save the four hundredth.
pub proof fn the_leap_years(y: int)
    ensures
        y % 4 != 0 ==> !is_leap(y),
        y % 4 == 0 && y % 100 != 0 ==> is_leap(y),
        y % 100 == 0 && y % 400 != 0 ==> !is_leap(y),
        y % 400 == 0 ==> is_leap(y),
{
}

/// The months are as long as they are.
pub proof fn the_lengths_of_the_months(y: int, m: int)
    ensures
        m == 1 || m == 3 || m == 5 || m == 7 || m == 8 || m == 10 || m == 12 ==> month_len(y, m)
            == 31,
        m == 4 || m == 6 || m == 9 || m == 11 ==> month_len(y, m) == 30,
        y % 4 == 0 && (y % 100 != 0 || y % 400 == 0) ==> month_len(y, 2) == 29,
        y % 4 != 0 || (y % 100 == 0 && y % 400 != 0) ==> month_len(y, 2) == 28,
{
}

/// Days are counted from the first of January 1970, one by one: through the month,
/// from its last day to the first of the next, and from the end of December to the
/// new year.
pub proof fn the_day_after_is_one_more(y: int, m: int, d: int)
    requires
        is_date(y, m, d),
    ensures
        day_number(1970, 1, 1) == 0,
        day_number(y, m, d + 1) == day_number(y, m, d) + 1,
        d == month_len(y, m) && m < 12 ==> day_number(y, m + 1, 1) == day_number(y, m, d) + 1,
        d == 31 && m == 12 ==> day_number(y + 1, 1, 1) == day_number(y, m, d) + 1,
{
    reveal_with_fuel(days_before_month, 14);
    lemma_year_len(y);
}

/// A time is told by its date and its clock: the day that lies that many days after
/// the first of January 1970, its hour and its minute, each padded to two digits.
pub proof fn a_time_is_told_by_date_and_clock(
    y: int,
    m: int,
    d: int,
    hour: nat,
    minute: nat,
    sec: nat,
)
    requires
        is_date(y, m, d),
        y >= 1970,
        hour < 24,
        minute < 60,
        sec < 60,
    ensures
        day_number(y, m, d) >= 0,
        utc_text((86_400 * day_number(y, m, d) + 3600 * hour + 60 * minute + sec) as nat) == dec(
            y as nat,
        ) + "-"@ + dec_fixed(m as nat, 2) + "-"@ + dec_fixed(d as nat, 2) + " "@ + (dec_fixed(
            hour,
            2,
        ) + ":"@ + dec_fixed(minute, 2)) + " UTC"@,
{
    let z = day_number(y, m, d);
    if (y, m, d) != (1970int, 1int, 1int) {
        later_dates_have_greater_numbers(1970, 1, 1, y, m, d);
    }
    assert(day_number(1970, 1, 1) == 0);
    lemma_date_exists(z);
    let (y2, m2, d2) = date_of(z);
    day_numbers_are_unique(y, m, d, y2, m2, d2);
    let day = 3600 * hour + 60 * minute + sec;
    let secs = (86_400 * z + day) as nat;
    assert(day < 86_400);
    assert(secs / 86_400 == z);
    assert(secs % 86_400 == day);
    assert(day / 3600 == hour);
    assert(secs % 3600 == 60 * minute + sec);
    assert((60 * minute + sec) / 60 == minute);
}

/// Before the year 10000 every text has twenty characters, and ends in " UTC".
pub proof fn utc_texts_have_one_length(secs: nat)
    requires
        secs < 253_402_300_800,
    ensures
        utc_text(secs).len() == 20,
        utc_text(secs).subrange(16, 20) == " UTC"@,
{
    let day = (secs / 86_400) as int;
    reveal_strlit(" ");
    reveal_strlit(" UTC");
    lemma_four_digit_year(day);
    lemma_date_text(date_of(day));
    lemma_clock_len(secs);
    assert(utc_text(secs).subrange(16, 20) =~= " UTC"@);
}

/// The text of an earlier minute sorts before that of a later one.
#[verifier::spinoff_prover]
proof fn lemma_minutes_sorted(s: nat, t: nat)
    requires
        s / 60 < t / 60,
        t < 253_402_300_800,
    ensures
        sorts_before(utc_text(s), utc_text(t)),
{
    let (z, z2) = ((s / 86_400) as int, (t / 86_400) as int);
    let (a, b) = (date_text(date_of(z)), date_text(date_of(z2)));
    let (c, d) = (clock_text(s), clock_text(t));
    assert(0 <= z <= z2 < 2_932_897);
    assert(a.len() == 10 && b.len() == 10) by {
        lemma_four_digit_year(z);
        lemma_four_digit_year(z2);
        lemma_date_text(date_of(z));
        lemma_date_text(date_of(z2));
    }
    lemma_clock_len(s);
    lemma_clock_len(t);
    if z < z2 {
        lemma_dates_sorted(z, z2);
        lemma_sorted_by_beginnings(a, b, " "@, " "@);
        lemma_sorted_by_beginnings(a + " "@, b + " "@, c, d);
    } else {
        lemma_clocks_sorted(s, t);
        lemma_sorted_by_endings(a + " "@, c, d);
    }
    lemma_sorted_by_beginnings(a + " "@ + c, b + " "@ + d, " UTC"@, " UTC"@);
}

/// Before the year 10000 the texts sort as the times do, and two texts are the
/// same exactly where the times lie within one minute.
pub proof fn utc_texts_sort_as_the_times_do(s: nat, t: nat)
    requires
        s <= t < 253_402_300_800,
    ensures
        utc_text(s) == utc_text(t) || sorts_before(utc_text(s), utc_text(t)),
        utc_text(s) == utc_text(t) <==> s / 60 == t / 60,
{
    if s / 60 == t / 60 {
        lemma_clock_parts(s);
        lemma_clock_parts(t);
    } else {
        lemma_minutes_sorted(s, t);
        lemma_sorted_texts_differ(utc_text(s), utc_text(t));
    }
}

/// The date of a day at or after the first of January 1970.
fn date_on(days: u64) -> (r: (u64, u32, u32))
    requires
        days <= u64::MAX / 86_400,
    ensures
        (r.0 as int, r.1 as int, r.2 as int) == date_of(days as int),
{
    let (y, m, d): (i64, u32, u32) = civil_from_days(days as i64);
    proof {
        let date = date_of(days as int);
        assert(has_number((y as int, m as int, d as int), days as int));
        day_numbers_are_unique(y as int, m as int, d as int, date.0, date.1, date.2);
        if y < 1970 {
            lemma_within_year(y as int, m as int, d as int);
            lemma_year_len(y as int);
            lemma_years_ascend(y + 1, 1970);
        }
    }
    (y as u64, m, d)
}

/// `HH:MM` of a Unix time.
fn format_clock(unix_secs: u64) -> (r: String)
    ensures
        r@ == clock_text(unix_secs as nat),
{
    let mut s: String = decimal_fixed(unix_secs % 86_400 / 3600, 2);
    s.append(":");
    s.append(decimal_fixed(unix_secs % 3600 / 60, 2).as_str());
    s
}

/// A Unix time as `YYYY-MM-DD HH:MM UTC`.
pub fn format_iso_utc(unix_secs: u64) -> (r: String)
    ensures
        r@ == utc_text(unix_secs as nat),
{
    let (y, m, d): (u64, u32, u32) = date_on(unix_secs / 86_400);
    let mut s: String = decimal(y);
    s.append("-");
    s.append(decimal_fixed(m as u64, 2).as_str());
    s.append("-");
    s.append(decimal_fixed(d as u64, 2).as_str());
    s.append(" ");
    s.append(format_clock(unix_secs).as_str());
    s.append(" UTC");
    s
}

} // verus!
