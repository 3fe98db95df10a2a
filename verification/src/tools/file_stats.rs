//! Calendar arithmetic for the timestamps that file statistics report.
use vstd::prelude::*;
use crate::text::{chars_of, dec, decimal_padded, extend, extend_str, string_of, zero_pad};

verus! {

/// Gregorian leap year.
pub open spec fn leap(y: int) -> bool {
    (y % 4 == 0 && y % 100 != 0) || y % 400 == 0
}

/// Days in year `y`.
pub open spec fn days_in_year(y: int) -> int {
    if leap(y) {
        366
    } else {
        365
    }
}

/// Days in month `m` (1 to 12).
pub open spec fn days_in_month(m: int, is_leap: bool) -> int {
    if m == 2 {
        if is_leap {
            29
        } else {
            28
        }
    } else if m == 4 || m == 6 || m == 9 || m == 11 {
        30
    } else {
        31
    }
}

/// Starting in year `y` with `days` days to go: the year reached and the
/// days left into it.
pub open spec fn year_split(days: int, y: int) -> (int, int)
    decreases days,
{
    if days < 0 || days < days_in_year(y) {
        (y, days)
    } else {
        year_split(days - days_in_year(y), y + 1)
    }
}

/// Starting at month `m` with `days` days to go: the month reached and the
/// days left into it.
pub open spec fn month_split(days: int, m: int, is_leap: bool) -> (int, int)
    decreases 13 - m,
{
    if m > 12 || days < days_in_month(m, is_leap) {
        (m, days)
    } else {
        month_split(days - days_in_month(m, is_leap), m + 1, is_leap)
    }
}

/// The calendar year of a time `secs` seconds after the Unix epoch.
pub open spec fn year_of(secs: nat) -> int {
    year_split((secs / 86400) as int, 1970).0
}

/// The `YYYY-MM-DDTHH:MM:SSZ` text for a time `secs` seconds after the
/// Unix epoch.
pub open spec fn timestamp(secs: nat) -> Seq<char> {
    let ys = year_split((secs / 86400) as int, 1970);
    let ms = month_split(ys.1, 1, leap(ys.0));
    let rem = secs % 86400;
    zero_pad(dec(ys.0 as nat), 4) + "-"@ + zero_pad(dec(ms.0 as nat), 2) + "-"@ + zero_pad(
        dec((ms.1 + 1) as nat),
        2,
    ) + "T"@ + zero_pad(dec(rem / 3600), 2) + ":"@ + zero_pad(dec((rem % 3600) / 60), 2) + ":"@
        + zero_pad(dec(rem % 60), 2) + "Z"@
}

proof fn lemma_year_split(days: int, y: int)
    requires
        days >= 0,
    ensures
        year_split(days, y).0 >= y,
        0 <= year_split(days, y).1 < days_in_year(year_split(days, y).0),
    decreases days,
{
    if days >= days_in_year(y) {
        lemma_year_split(days - days_in_year(y), y + 1);
    }
}

proof fn lemma_month_split(days: int, m: int, is_leap: bool)
    requires
        1 <= m,
        0 <= days,
        days < (if is_leap { 366int } else { 365int }) - month_offset(m, is_leap),
        m <= 13,
    ensures
        1 <= month_split(days, m, is_leap).0 <= 12,
        0 <= month_split(days, m, is_leap).1 < 31,
    decreases 13 - m,
{
    assert(month_offset(13, true) == 366 && month_offset(13, false) == 365) by {
        reveal_with_fuel(month_offset, 13);
    }
    if m <= 12 && days >= days_in_month(m, is_leap) {
        assert(month_offset(m + 1, is_leap) == month_offset(m, is_leap) + days_in_month(m, is_leap));
        lemma_month_split(days - days_in_month(m, is_leap), m + 1, is_leap);
    }
}

/// Days in the months before month `m`.
pub open spec fn month_offset(m: int, is_leap: bool) -> int
    decreases m,
{
    if m <= 1 {
        0
    } else {
        month_offset(m - 1, is_leap) + days_in_month(m - 1, is_leap)
    }
}

proof fn lemma_neg_divides(a: int, m: int)
    requires
        m > 0,
    ensures
        ((-a) % m == 0) == (a % m == 0),
{
    if a % m == 0 {
        vstd::arithmetic::div_mod::lemma_fundamental_div_mod(a, m);
        let q = a / m;
        assert(-a == m * (-q)) by (nonlinear_arith)
            requires
                a == m * q,
        ;
        vstd::arithmetic::div_mod::lemma_mod_multiples_basic(-q, m);
        assert((-q) * m == m * (-q)) by (nonlinear_arith);
    } else if (-a) % m == 0 {
        vstd::arithmetic::div_mod::lemma_fundamental_div_mod(-a, m);
        let q = (-a) / m;
        assert(a == m * (-q)) by (nonlinear_arith)
            requires
                -a == m * q,
        ;
        vstd::arithmetic::div_mod::lemma_mod_multiples_basic(-q, m);
        assert((-q) * m == m * (-q)) by (nonlinear_arith);
    }
}

/// Whether `year` is a leap year.
pub fn is_leap_year(year: i32) -> (b: bool)
    ensures
        b == leap(year as int),
{
    let a: u32 = if year < 0 {
        (-(year as i64)) as u32
    } else {
        year as u32
    };
    proof {
        if year < 0 {
            lemma_neg_divides(a as int, 4);
            lemma_neg_divides(a as int, 100);
            lemma_neg_divides(a as int, 400);
        }
    }
    (a % 4 == 0 && a % 100 != 0) || a % 400 == 0
}

fn month_days(m: u32, is_leap: bool) -> (d: i64)
    requires
        1 <= m <= 12,
    ensures
        d == days_in_month(m as int, is_leap),
{
    if m == 2 {
        if is_leap {
            29
        } else {
            28
        }
    } else if m == 4 || m == 6 || m == 9 || m == 11 {
        30
    } else {
        31
    }
}

/// ISO 8601 text for a time `secs` seconds after the Unix epoch.
pub fn format_timestamp(secs: u64) -> (r: String)
    requires
        year_of(secs as nat) <= i32::MAX,
    ensures
        r@ == timestamp(secs as nat),
{
    let days_since_epoch = secs / 86400;
    let remaining_secs = secs % 86400;
    let hours = remaining_secs / 3600;
    let minutes = (remaining_secs % 3600) / 60;
    let seconds = remaining_secs % 60;
    let ghost d0 = days_since_epoch as int;
    let mut days: i64 = days_since_epoch as i64;
    let mut year: i32 = 1970;
    proof {
        lemma_year_split(d0, 1970);
    }
    loop
        invariant
            0 <= days <= d0,
            1970 <= year,
            year_split(d0, 1970) == year_split(days as int, year as int),
            year_split(d0, 1970).0 <= i32::MAX,
        ensures
            0 <= days < days_in_year(year as int),
            year_split(d0, 1970) == (year as int, days as int),
        decreases days,
    {
        let days_in_year: i64 = if is_leap_year(year) {
            366
        } else {
            365
        };
        if days < days_in_year {
            break;
        }
        proof {
            lemma_year_split(days - days_in_year, year + 1);
        }
        days = days - days_in_year;
        year = year + 1;
    }
    proof {
        lemma_year_split(d0, 1970);
        assert(month_offset(1, leap(year as int)) == 0);
    }
    let is_leap = is_leap_year(year);
    let mut month: u32 = 1;
    let ghost y_days = days as int;
    while month <= 12 && days >= month_days(month, is_leap)
        invariant
            1 <= month <= 13,
            0 <= days,
            days < (if is_leap { 366int } else { 365int }) - month_offset(month as int, is_leap),
            month_split(y_days, 1, is_leap) == month_split(days as int, month as int, is_leap),
        decreases 13 - month,
    {
        let dim = month_days(month, is_leap);
        proof {
            assert(month_offset(month + 1, is_leap) == month_offset(month as int, is_leap)
                + days_in_month(month as int, is_leap));
        }
        days = days - dim;
        month = month + 1;
    }
    proof {
        lemma_month_split(y_days, 1, is_leap);
    }
    let day = days + 1;
    let mut out = decimal_padded(year as u64, 4);
    extend_str(&mut out, "-");
    extend(&mut out, decimal_padded(month as u64, 2).as_slice());
    extend_str(&mut out, "-");
    extend(&mut out, decimal_padded(day as u64, 2).as_slice());
    extend_str(&mut out, "T");
    extend(&mut out, decimal_padded(hours, 2).as_slice());
    extend_str(&mut out, ":");
    extend(&mut out, decimal_padded(minutes, 2).as_slice());
    extend_str(&mut out, ":");
    extend(&mut out, decimal_padded(seconds, 2).as_slice());
    extend_str(&mut out, "Z");
    string_of(out.as_slice())
}

/// The `file_stats` tool.
pub struct FileStats;

impl FileStats {
    /// The tool's name.
    pub fn name() -> (r: &'static str)
        ensures
            r@ == "file_stats"@,
    {
        "file_stats"
    }

    /// The tool's description.
    pub fn description() -> (r: &'static str)
        ensures
            r@ == "Get file or directory statistics including size, timestamps, and permissions"@,
    {
        "Get file or directory statistics including size, timestamps, and permissions"
    }
}

/// The days before each month of the Gregorian calendar (month 13 standing
/// for the end of the year) follow the closed form of civil calendar
/// arithmetic: 31 days before February, and from March on
/// `(153 * (m - 3) + 2) / 5 + 59`, plus the leap day after February; the
/// months thus have 31, 28 or 29, 31, 30, 31, 30, 31, 31, 30, 31, 30 and 31
/// days, and the year 365 or 366.
pub proof fn law_gregorian_months(is_leap: bool)
    ensures
        forall|m: int|
            1 <= m <= 13 ==> #[trigger] month_offset(m, is_leap) == if m == 1 {
                0
            } else if m == 2 {
                31
            } else {
                (153 * (m - 3) + 2) / 5 + 59 + if is_leap {
                    1int
                } else {
                    0int
                }
            },
{
    reveal_with_fuel(month_offset, 13);
    assert forall|m: int| 1 <= m <= 13 implies #[trigger] month_offset(m, is_leap) == if m == 1 {
        0
    } else if m == 2 {
        31
    } else {
        (153 * (m - 3) + 2) / 5 + 59 + if is_leap {
            1int
        } else {
            0int
        }
    } by {
        reveal_with_fuel(month_offset, 13);
        if m == 1 {
        } else if m == 2 {
        } else if m == 3 {
        } else if m == 4 {
        } else if m == 5 {
        } else if m == 6 {
        } else if m == 7 {
        } else if m == 8 {
        } else if m == 9 {
        } else if m == 10 {
        } else if m == 11 {
        } else if m == 12 {
        } else {
        }
    }
}

/// Days in a leap or a common year.
pub open spec fn days_in_year_kind(is_leap: bool) -> int {
    if is_leap {
        366
    } else {
        365
    }
}

/// Where a day of the year falls: the month reached is the one whose
/// first day (counted by `month_offset`) is the last at or before the day,
/// and the day of the month is what is left.
pub proof fn law_day_in_month(days: int, is_leap: bool)
    requires
        0 <= days < days_in_year_kind(is_leap),
    ensures
        ({
            let ms = month_split(days, 1, is_leap);
            &&& 1 <= ms.0 <= 12
            &&& month_offset(ms.0, is_leap) <= days < month_offset(ms.0 + 1, is_leap)
            &&& ms.1 == days - month_offset(ms.0, is_leap)
        }),
{
    lemma_split_from(days, 1, is_leap);
}

proof fn lemma_split_from(days: int, m: int, is_leap: bool)
    requires
        1 <= m <= 13,
        0 <= days,
        month_offset(m, is_leap) + days < days_in_year_kind(is_leap),
    ensures
        ({
            let ms = month_split(days, m, is_leap);
            &&& m <= ms.0 <= 12
            &&& month_offset(ms.0, is_leap) <= month_offset(m, is_leap) + days < month_offset(
                ms.0 + 1,
                is_leap,
            )
            &&& ms.1 == month_offset(m, is_leap) + days - month_offset(ms.0, is_leap)
        }),
    decreases 13 - m,
{
    assert(month_offset(13, true) == 366 && month_offset(13, false) == 365) by {
        reveal_with_fuel(month_offset, 13);
    }
    assert(month_offset(m + 1, is_leap) == month_offset(m, is_leap) + days_in_month(m, is_leap));
    if m <= 12 && days >= days_in_month(m, is_leap) {
        lemma_split_from(days - days_in_month(m, is_leap), m + 1, is_leap);
    }
}

} // verus!
