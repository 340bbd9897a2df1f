//! Calendar dates and weekend-aware day arithmetic.
//!
//! A [`Date`] is a plain (year, month, day) triple in the proleptic Gregorian
//! calendar, restricted to the years 1 through 9999.  Every date maps to a
//! *day number*: the count of days since January 1 of year 1, which is day 0
//! and a Monday.  All schedule arithmetic (durations, elapsed days, weekend
//! detection) is specified and proved against that mapping.

use vstd::arithmetic::div_mod::{
    lemma_fundamental_div_mod, lemma_fundamental_div_mod_converse, lemma_mod_multiples_basic,
};
use vstd::prelude::*;

verus! {

/// Smallest supported year.
pub const MIN_YEAR: u32 = 1;

/// Largest supported year.
pub const MAX_YEAR: u32 = 9999;

/// Day number of December 31, 9999, the last representable day.
pub const DAY_NUMBER_MAX: u64 = 3652058;

/// Weekday index of a Saturday (day numbers are taken modulo 7, 0 = Monday).
pub const SATURDAY: u64 = 5;

/// Weekday index of a Sunday.
pub const SUNDAY: u64 = 6;

/// A calendar date: year, month (1-12) and day of month (1-based).
#[derive(Clone, Copy, PartialEq, Eq, Structural, Debug)]
pub struct Date {
    pub year: u32,
    pub month: u32,
    pub day: u32,
}

/// Whether year `y` is a leap year under the Gregorian rules.
pub open spec fn spec_is_leap_year(y: int) -> bool {
    (y % 4 == 0 && y % 100 != 0) || y % 400 == 0
}

/// The number of days in month `m` of year `y`.
pub open spec fn spec_month_len(y: int, m: int) -> int {
    if m == 2 {
        if spec_is_leap_year(y) {
            29
        } else {
            28
        }
    } else if m == 4 || m == 6 || m == 9 || m == 11 {
        30
    } else {
        31
    }
}

/// A well-formed date within the supported year range.
pub open spec fn spec_valid_date(d: Date) -> bool {
    &&& MIN_YEAR <= d.year <= MAX_YEAR
    &&& 1 <= d.month <= 12
    &&& 1 <= d.day <= spec_month_len(d.year as int, d.month as int)
}

/// Days strictly before January 1 of year `y`, counting from year 1.
pub open spec fn spec_days_before_year(y: int) -> int {
    365 * (y - 1) + (y - 1) / 4 - (y - 1) / 100 + (y - 1) / 400
}

/// Days of year `y` strictly before the first of month `m`.
pub open spec fn spec_days_before_month(y: int, m: int) -> int
    decreases m,
{
    if m <= 1 {
        0
    } else {
        spec_days_before_month(y, m - 1) + spec_month_len(y, m - 1)
    }
}

/// The day number of a date: days since January 1 of year 1 (day 0).
pub open spec fn spec_day_number(d: Date) -> int {
    spec_days_before_year(d.year as int) + spec_days_before_month(d.year as int, d.month as int)
        + d.day - 1
}

/// Weekday of a date, as a residue modulo 7; 0 is Monday, 5 Saturday, 6 Sunday.
pub open spec fn spec_weekday(d: Date) -> int {
    spec_day_number(d) % 7
}

/// The date one day later, ignoring the year-9999 ceiling.
pub open spec fn spec_next_day(d: Date) -> Date {
    if d.day < spec_month_len(d.year as int, d.month as int) {
        Date { year: d.year, month: d.month, day: (d.day + 1) as u32 }
    } else if d.month < 12 {
        Date { year: d.year, month: (d.month + 1) as u32, day: 1 }
    } else {
        Date { year: (d.year + 1) as u32, month: 1, day: 1 }
    }
}

/// The date `n` days later.
pub open spec fn spec_date_plus(d: Date, n: nat) -> Date
    decreases n,
{
    if n == 0 {
        d
    } else {
        spec_date_plus(spec_next_day(d), (n - 1) as nat)
    }
}

/// A date moved off a weekend: Saturday advances by two days, Sunday by one.
pub open spec fn spec_skip_weekend(d: Date) -> Date {
    if spec_weekday(d) == SATURDAY {
        spec_date_plus(d, 2)
    } else if spec_weekday(d) == SUNDAY {
        spec_date_plus(d, 1)
    } else {
        d
    }
}

/// The weekend-adjusted ("shadow") duration: `days`, extended by 2 if
/// `anchor + days` lands on a Saturday and by 1 if it lands on a Sunday.
pub open spec fn spec_shadow_duration(anchor: Date, days: int) -> int {
    let landing = spec_date_plus(anchor, days as nat);
    if spec_weekday(landing) == SATURDAY {
        days + 2
    } else if spec_weekday(landing) == SUNDAY {
        days + 1
    } else {
        days
    }
}

/// For positive `c`, the quotient `k / c` grows by one exactly at the
/// multiples of `c`.
proof fn lemma_div_step(k: int, c: int)
    requires
        c >= 1,
    ensures
        k / c == (k - 1) / c + if k % c == 0 {
            1int
        } else {
            0int
        },
{
    let q = k / c;
    let r = k % c;
    lemma_fundamental_div_mod(k, c);
    assert((q - 1) * c + (c - 1) == c * q - 1) by (nonlinear_arith);
    assert(q * c + (r - 1) == c * q + r - 1) by (nonlinear_arith);
    if r == 0 {
        lemma_fundamental_div_mod_converse(k - 1, c, q - 1, c - 1);
    } else {
        lemma_fundamental_div_mod_converse(k - 1, c, q, r - 1);
    }
}

/// A year divisible by 400 is divisible by 100, and one divisible by 100 by 4.
proof fn lemma_leap_divisors(y: int)
    ensures
        y % 400 == 0 ==> y % 100 == 0,
        y % 100 == 0 ==> y % 4 == 0,
{
    if y % 400 == 0 {
        lemma_fundamental_div_mod(y, 400);
        let q = y / 400;
        assert(y == (4 * q) * 100);
        lemma_mod_multiples_basic(4 * q, 100);
    }
    if y % 100 == 0 {
        lemma_fundamental_div_mod(y, 100);
        let q = y / 100;
        assert(y == (25 * q) * 4);
        lemma_mod_multiples_basic(25 * q, 4);
    }
}

/// Crossing from December 31 to January 1 adds exactly one day number.
pub proof fn lemma_days_before_year_step(y: int)
    ensures
        spec_days_before_year(y + 1) == spec_days_before_year(y) + 365 + if spec_is_leap_year(y) {
            1int
        } else {
            0int
        },
{
    lemma_div_step(y, 4);
    lemma_div_step(y, 100);
    lemma_div_step(y, 400);
    lemma_leap_divisors(y);
}

/// The days-before-month sum over a whole year is the year's length.
pub proof fn lemma_days_in_year(y: int)
    ensures
        spec_days_before_month(y, 12) + spec_month_len(y, 12) == 365 + if spec_is_leap_year(y) {
            1int
        } else {
            0int
        },
{
    reveal_with_fuel(spec_days_before_month, 13);
}

/// Stepping to the next day adds exactly one to the day number and stays
/// within the supported range.
pub proof fn lemma_next_day(d: Date)
    requires
        spec_valid_date(d),
        spec_day_number(d) < DAY_NUMBER_MAX,
    ensures
        spec_valid_date(spec_next_day(d)),
        spec_day_number(spec_next_day(d)) == spec_day_number(d) + 1,
{
    let y = d.year as int;
    let m = d.month as int;
    if d.day < spec_month_len(y, m) {
    } else if d.month < 12 {
        assert(spec_days_before_month(y, m + 1) == spec_days_before_month(y, m)
            + spec_month_len(y, m));
    } else {
        lemma_days_in_year(y);
        lemma_days_before_year_step(y);
        if d.year == MAX_YEAR {
            reveal_with_fuel(spec_days_before_month, 13);
            assert(spec_days_before_year(9999) == 3651694);
            assert(false);
        }
    }
}

/// Day numbers of valid dates are at least 0 and at most `DAY_NUMBER_MAX`.
pub proof fn lemma_day_number_bounds(d: Date)
    requires
        spec_valid_date(d),
    ensures
        0 <= spec_day_number(d) <= DAY_NUMBER_MAX,
{
    let y = d.year as int;
    let m = d.month as int;
    reveal_with_fuel(spec_days_before_month, 13);
    assert(0 <= spec_days_before_month(y, m) <= 335);
    assert(365 * (y - 1) >= 0);
    assert((y - 1) / 4 >= 0 && (y - 1) / 100 >= 0 && (y - 1) / 400 >= 0);
    assert((y - 1) / 100 <= (y - 1) / 4) by {
        if y >= 1 {
            lemma_fundamental_div_mod(y - 1, 4);
            lemma_fundamental_div_mod(y - 1, 100);
        }
    }
    assert(spec_days_before_year(y) >= 0);
    assert(spec_days_before_year(y) <= spec_days_before_year(10000)) by {
        lemma_days_before_year_le(y, 10000);
    }
    assert(spec_days_before_year(10000) == 3652059);
    if y <= 9999 {
        assert(spec_days_before_year(y) + spec_days_before_month(y, m) + d.day - 1
            <= DAY_NUMBER_MAX) by {
            lemma_days_before_year_le(y + 1, 10000);
            lemma_days_before_year_step(y);
            lemma_days_in_year(y);
            assert(spec_days_before_month(y, m) + d.day <= spec_days_before_month(y, 12)
                + spec_month_len(y, 12));
        }
    }
}

/// `spec_days_before_year` is monotone in the year.
proof fn lemma_days_before_year_le(a: int, b: int)
    requires
        a <= b,
    ensures
        spec_days_before_year(a) <= spec_days_before_year(b),
    decreases b - a,
{
    if a < b {
        lemma_days_before_year_le(a, b - 1);
        lemma_days_before_year_step(b - 1);
    }
}

/// Adding `n` days adds `n` to the day number and preserves validity.
pub proof fn lemma_date_plus(d: Date, n: nat)
    requires
        spec_valid_date(d),
        spec_day_number(d) + n <= DAY_NUMBER_MAX,
    ensures
        spec_valid_date(spec_date_plus(d, n)),
        spec_day_number(spec_date_plus(d, n)) == spec_day_number(d) + n,
    decreases n,
{
    if n > 0 {
        lemma_next_day(d);
        lemma_date_plus(spec_next_day(d), (n - 1) as nat);
    }
}

/// Day addition composes: `d + (a + b)` is `(d + a) + b`.
pub proof fn lemma_date_plus_assoc(d: Date, a: nat, b: nat)
    ensures
        spec_date_plus(d, a + b) == spec_date_plus(spec_date_plus(d, a), b),
    decreases a,
{
    if a > 0 {
        lemma_date_plus_assoc(spec_next_day(d), (a - 1) as nat, b);
    }
}

/// Adding days within one month only moves the day-of-month field.
proof fn lemma_date_plus_within_month(d: Date, k: nat)
    requires
        spec_valid_date(d),
        d.day + k <= spec_month_len(d.year as int, d.month as int),
    ensures
        spec_date_plus(d, k) == (Date { year: d.year, month: d.month, day: (d.day + k) as u32 }),
    decreases k,
{
    if k > 0 {
        lemma_date_plus_within_month(spec_next_day(d), (k - 1) as nat);
    }
}

/// The number of days in the given month.
pub fn num_days_in_month(year: u32, month: u32) -> (r: u32)
    requires
        1 <= month <= 12,
    ensures
        r == spec_month_len(year as int, month as int),
{
    if month == 2 {
        if (year % 4 == 0 && year % 100 != 0) || year % 400 == 0 {
            29
        } else {
            28
        }
    } else if month == 4 || month == 6 || month == 9 || month == 11 {
        30
    } else {
        31
    }
}

/// Days of the year strictly before the first of the given month.
fn days_before_month(year: u32, month: u32) -> (r: u32)
    requires
        1 <= month <= 12,
    ensures
        r == spec_days_before_month(year as int, month as int),
{
    let base: u32 = if month == 1 {
        0
    } else if month == 2 {
        31
    } else if month == 3 {
        59
    } else if month == 4 {
        90
    } else if month == 5 {
        120
    } else if month == 6 {
        151
    } else if month == 7 {
        181
    } else if month == 8 {
        212
    } else if month == 9 {
        243
    } else if month == 10 {
        273
    } else if month == 11 {
        304
    } else {
        334
    };
    let leap: u32 = if month > 2 && ((year % 4 == 0 && year % 100 != 0) || year % 400 == 0) {
        1
    } else {
        0
    };
    proof {
        reveal_with_fuel(spec_days_before_month, 13);
    }
    base + leap
}

/// The day number of a valid date.
pub fn day_number(d: &Date) -> (r: u64)
    requires
        spec_valid_date(*d),
    ensures
        r == spec_day_number(*d),
        r <= DAY_NUMBER_MAX,
{
    proof {
        lemma_day_number_bounds(*d);
    }
    let y = (d.year - 1) as u64;
    let before_year = 365 * y + y / 4 - y / 100 + y / 400;
    assert(y / 100 <= 365 * y + y / 4) by {
        lemma_fundamental_div_mod(y as int, 100);
        lemma_fundamental_div_mod(y as int, 4);
    }
    before_year + days_before_month(d.year, d.month) as u64 + d.day as u64 - 1
}

/// The weekday of a valid date: 0 is Monday through 6, Sunday.
pub fn weekday(d: &Date) -> (r: u64)
    requires
        spec_valid_date(*d),
    ensures
        r == spec_weekday(*d),
{
    day_number(d) % 7
}

/// The date `n` days after `d`.
pub fn add_days(d: &Date, n: u64) -> (r: Date)
    requires
        spec_valid_date(*d),
        spec_day_number(*d) + n <= DAY_NUMBER_MAX,
    ensures
        r == spec_date_plus(*d, n as nat),
        spec_valid_date(r),
        spec_day_number(r) == spec_day_number(*d) + n,
{
    let mut cur: Date = *d;
    let mut rem: u64 = n;
    loop
        invariant
            spec_valid_date(cur),
            spec_day_number(cur) + rem <= DAY_NUMBER_MAX,
            spec_day_number(cur) + rem == spec_day_number(*d) + n,
            spec_date_plus(*d, n as nat) == spec_date_plus(cur, rem as nat),
        decreases rem,
    {
        proof {
            lemma_day_number_bounds(cur);
        }
        let len = num_days_in_month(cur.year, cur.month);
        if rem <= (len - cur.day) as u64 {
            let out = Date { year: cur.year, month: cur.month, day: cur.day + rem as u32 };
            proof {
                lemma_date_plus_within_month(cur, rem as nat);
                lemma_date_plus(cur, rem as nat);
            }
            return out;
        }
        let jump = (len - cur.day + 1) as u64;
        proof {
            lemma_date_plus_within_month(cur, (len - cur.day) as nat);
            let month_end = Date { year: cur.year, month: cur.month, day: len };
            assert(spec_date_plus(cur, (len - cur.day) as nat) == month_end);
            lemma_date_plus_assoc(cur, (len - cur.day) as nat, 1);
            assert(spec_date_plus(month_end, 1) == spec_next_day(month_end)) by {
                reveal_with_fuel(spec_date_plus, 2);
            }
            lemma_date_plus(cur, jump as nat);
            lemma_date_plus_assoc(cur, jump as nat, (rem - jump) as nat);
        }
        let next = if cur.month < 12 {
            Date { year: cur.year, month: cur.month + 1, day: 1 }
        } else {
            Date { year: cur.year + 1, month: 1, day: 1 }
        };
        assert(next == spec_date_plus(cur, jump as nat));
        cur = next;
        rem = rem - jump;
    }
}

/// Moves a date off a weekend: Saturday forward by two days, Sunday by one.
pub fn skip_weekend_start(d: &Date) -> (r: Date)
    requires
        spec_valid_date(*d),
        spec_day_number(*d) + 2 <= DAY_NUMBER_MAX,
    ensures
        r == spec_skip_weekend(*d),
        spec_valid_date(r),
{
    let w = weekday(d);
    proof {
        lemma_date_plus(*d, 2);
        lemma_date_plus(*d, 1);
    }
    if w == SATURDAY {
        add_days(d, 2)
    } else if w == SUNDAY {
        add_days(d, 1)
    } else {
        *d
    }
}

/// The weekend-adjusted duration for `days` of work starting at `anchor`.
pub fn weekend_adjusted_duration(anchor: &Date, days: u64) -> (r: u64)
    requires
        spec_valid_date(*anchor),
        spec_day_number(*anchor) + days + 2 <= DAY_NUMBER_MAX,
    ensures
        r == spec_shadow_duration(*anchor, days as int),
        days <= r <= days + 2,
{
    proof {
        lemma_day_number_bounds(*anchor);
        lemma_date_plus(*anchor, days as nat);
    }
    let landing = add_days(anchor, days);
    let w = weekday(&landing);
    if w == SATURDAY {
        days + 2
    } else if w == SUNDAY {
        days + 1
    } else {
        days
    }
}

} // verus!
