//! Calendar arithmetic: turning an instant in seconds since the epoch into
//! proleptic-Gregorian calendar fields, and shifting an instant by a whole
//! number of hours.
//!
//! The compiler's host interface asks for "today" as calendar fields; the
//! conversion is done here so that the answer is a checked function of the
//! instant alone.

use vstd::arithmetic::div_mod::lemma_fundamental_div_mod;
use vstd::arithmetic::div_mod::lemma_mod_division_less_than_divisor;
use vstd::arithmetic::div_mod::lemma_mod_multiples_vanish;
use vstd::prelude::*;

verus! {

/// Seconds at 0000-01-01 00:00:00, the earliest instant convertible here.
pub const MIN_CIVIL_UNIX: i64 = -62167219200;

/// Seconds at 9999-12-31 23:59:59, the latest instant convertible here.
pub const MAX_CIVIL_UNIX: i64 = 253402300799;

/// An instant broken into calendar fields, all in one timeline (no zone).
pub struct CivilTime {
    pub year: i64,
    pub month: u8,
    pub day: u8,
    pub hour: u8,
    pub minute: u8,
    pub second: u8,
}

/// Gregorian leap year rule.
pub open spec fn is_leap(y: int) -> bool {
    y % 4 == 0 && (y % 100 != 0 || y % 400 == 0)
}

pub open spec fn days_in_year(y: int) -> int {
    if is_leap(y) {
        366
    } else {
        365
    }
}

/// Days from the epoch day to the first day of year `y` (negative before
/// 1970).
pub open spec fn days_before_year(y: int) -> int
    decreases (if y >= 1970 {
        y - 1970
    } else {
        1970 - y
    }),
{
    if y == 1970 {
        0
    } else if y > 1970 {
        days_before_year(y - 1) + days_in_year(y - 1)
    } else {
        days_before_year(y + 1) - days_in_year(y)
    }
}

pub open spec fn days_in_month(y: int, m: int) -> int {
    if m == 1 {
        31
    } else if m == 2 {
        if is_leap(y) {
            29
        } else {
            28
        }
    } else if m == 3 {
        31
    } else if m == 4 {
        30
    } else if m == 5 {
        31
    } else if m == 6 {
        30
    } else if m == 7 {
        31
    } else if m == 8 {
        31
    } else if m == 9 {
        30
    } else if m == 10 {
        31
    } else if m == 11 {
        30
    } else {
        31
    }
}

/// Days from the first of the year to the first of month `m`.
pub open spec fn days_before_month(y: int, m: int) -> int {
    let leap: int = if is_leap(y) {
        1
    } else {
        0
    };
    if m <= 1 {
        0
    } else if m == 2 {
        31
    } else if m == 3 {
        59 + leap
    } else if m == 4 {
        90 + leap
    } else if m == 5 {
        120 + leap
    } else if m == 6 {
        151 + leap
    } else if m == 7 {
        181 + leap
    } else if m == 8 {
        212 + leap
    } else if m == 9 {
        243 + leap
    } else if m == 10 {
        273 + leap
    } else if m == 11 {
        304 + leap
    } else {
        334 + leap
    }
}

/// Well-formed calendar fields.
pub open spec fn civil_valid(c: CivilTime) -> bool {
    &&& 1 <= c.month <= 12
    &&& 1 <= c.day <= days_in_month(c.year as int, c.month as int)
    &&& c.hour < 24
    &&& c.minute < 60
    &&& c.second < 60
}

/// The instant denoted by calendar fields, in seconds since the epoch.
pub open spec fn unix_of_civil(c: CivilTime) -> int {
    (days_before_year(c.year as int) + days_before_month(c.year as int, c.month as int) + (c.day
        - 1)) * 86400 + c.hour * 3600 + c.minute * 60 + c.second
}

/// The leap rule repeats every 400 years, so a shift by 4000 preserves it.
proof fn lemma_is_leap_shift(y: int)
    ensures
        is_leap(y + 4000) == is_leap(y),
{
    lemma_mod_multiples_vanish(1000, y, 4);
    lemma_mod_multiples_vanish(40, y, 100);
    lemma_mod_multiples_vanish(10, y, 400);
}

fn is_leap_exec(y: i64) -> (r: bool)
    requires
        -4000 <= y <= 20000,
    ensures
        r == is_leap(y as int),
{
    let yy = (y + 4000) as u32;
    proof {
        lemma_is_leap_shift(y as int);
    }
    yy % 4 == 0 && (yy % 100 != 0 || yy % 400 == 0)
}

fn days_in_year_exec(y: i64) -> (r: u32)
    requires
        -4000 <= y <= 20000,
    ensures
        r == days_in_year(y as int),
{
    if is_leap_exec(y) {
        366
    } else {
        365
    }
}

fn days_in_month_exec(y: i64, m: u8) -> (r: u32)
    requires
        -4000 <= y <= 20000,
        1 <= m <= 12,
    ensures
        r == days_in_month(y as int, m as int),
{
    if m == 2 {
        if is_leap_exec(y) {
            29
        } else {
            28
        }
    } else if m == 4 || m == 6 || m == 9 || m == 11 {
        30
    } else {
        31
    }
}

/// Every year contributes between 365 and 366 days, so the day count to a
/// year's first day is bounded linearly in the year.
proof fn lemma_days_before_year_bounds(y: int)
    requires
        -4000 <= y <= 20000,
    ensures
        y >= 1970 ==> (y - 1970) * 365 <= days_before_year(y) <= (y - 1970) * 366,
        y <= 1970 ==> (y - 1970) * 366 <= days_before_year(y) <= (y - 1970) * 365,
    decreases (if y >= 1970 {
        y - 1970
    } else {
        1970 - y
    }),
{
    if y == 1970 {
    } else if y > 1970 {
        lemma_days_before_year_bounds(y - 1);
    } else {
        lemma_days_before_year_bounds(y + 1);
    }
}

/// Split an instant into a day number and the seconds into that day.
fn split_days(t: i64) -> (r: (i64, u32))
    requires
        MIN_CIVIL_UNIX <= t <= MAX_CIVIL_UNIX,
    ensures
        r.0 * 86400 + r.1 == t,
        0 <= r.1 < 86400,
        -719529 <= r.0 <= 2932896,
    {
    if t >= 0 {
        let tu = t as u64;
        let q = tu / 86400;
        let r = tu % 86400;
        proof {
            lemma_fundamental_div_mod(tu as int, 86400);
            lemma_mod_division_less_than_divisor(tu as int, 86400);
        }
        (q as i64, r as u32)
    } else {
        let n = (-(t as i128)) as u64;
        let q = n / 86400;
        let r = n % 86400;
        proof {
            lemma_fundamental_div_mod(n as int, 86400);
            lemma_mod_division_less_than_divisor(n as int, 86400);
        }
        if r == 0 {
            (-(q as i64), 0)
        } else {
            (-(q as i64) - 1, (86400 - r) as u32)
        }
    }
}

/// Convert an instant to calendar fields.
///
/// The result is the unique well-formed set of fields that denotes the
/// instant again: `unix_of_civil` inverts the conversion exactly.
pub fn civil_from_unix(t: i64) -> (c: CivilTime)
    requires
        MIN_CIVIL_UNIX <= t <= MAX_CIVIL_UNIX,
    ensures
        civil_valid(c),
        unix_of_civil(c) == t,
{
    let (day0, rem) = split_days(t);
    let mut y: i64 = 1970;
    let mut d: i64 = day0;
    if d >= 0 {
        while d >= days_in_year_exec(y) as i64
            invariant
                0 <= d,
                1970 <= y <= 10005,
                days_before_year(y as int) + d == day0,
                day0 <= 2932896,
            decreases d,
        {
            proof {
                lemma_days_before_year_bounds(y as int + 1);
            }
            d = d - days_in_year_exec(y) as i64;
            y = y + 1;
        }
    } else {
        while d < 0
            invariant
                -2 <= y <= 1970,
                days_before_year(y as int) + d == day0,
                day0 >= -719529,
                d < days_in_year(y as int),
            decreases y + 2,
        {
            proof {
                lemma_days_before_year_bounds(y as int);
                lemma_days_before_year_bounds(y as int - 1);
            }
            y = y - 1;
            d = d + days_in_year_exec(y) as i64;
        }
    }
    let doy = d;
    let mut m: u8 = 1;
    let mut rest: i64 = doy;
    while rest >= days_in_month_exec(y, m) as i64
        invariant
            -2 <= y <= 10005,
            1 <= m <= 12,
            0 <= rest,
            days_before_month(y as int, m as int) + rest == doy,
            doy < days_in_year(y as int),
        decreases 12 - m,
    {
        rest = rest - days_in_month_exec(y, m) as i64;
        m = m + 1;
    }
    let hour = rem / 3600;
    let minrem = rem % 3600;
    let minute = minrem / 60;
    let second = minrem % 60;
    proof {
        lemma_fundamental_div_mod(rem as int, 3600);
        lemma_mod_division_less_than_divisor(rem as int, 3600);
        lemma_fundamental_div_mod(minrem as int, 60);
        lemma_mod_division_less_than_divisor(minrem as int, 60);
    }
    CivilTime {
        year: y,
        month: m,
        day: (rest + 1) as u8,
        hour: hour as u8,
        minute: minute as u8,
        second: second as u8,
    }
}

/// The instant shifted by a whole number of seconds, when that stays
/// inside the convertible range.
pub open spec fn spec_shifted(now: i64, offset_seconds: Option<i64>) -> Option<int> {
    let s = match offset_seconds {
        Some(o) => now + o,
        None => now as int,
    };
    if MIN_CIVIL_UNIX <= s <= MAX_CIVIL_UNIX {
        Some(s)
    } else {
        None
    }
}

/// The calendar fields of "now", optionally shifted by a whole number of
/// seconds.
///
/// An instant outside the convertible calendar range yields nothing rather
/// than wrong fields.
pub fn today_fields(now: i64, offset_seconds: Option<i64>) -> (r: Option<CivilTime>)
    ensures
        match spec_shifted(now, offset_seconds) {
            Some(s) => r matches Some(c) && civil_valid(c) && unix_of_civil(c) == s,
            None => r is None,
        },
{
    let shifted: i128 = match offset_seconds {
        Some(o) => (now as i128) + (o as i128),
        None => now as i128,
    };
    if shifted < MIN_CIVIL_UNIX as i128 || shifted > MAX_CIVIL_UNIX as i128 {
        return None;
    }
    Some(civil_from_unix(shifted as i64))
}

} // verus!
