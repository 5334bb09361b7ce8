//! Proleptic Gregorian calendar dates and the date arithmetic the holiday
//! rules rest on: leap years, month lengths, day numbers, weekdays,
//! neighbouring days, and nth-weekday-of-month resolution.

use vstd::prelude::*;
use vstd::arithmetic::div_mod::{
    lemma_fundamental_div_mod, lemma_fundamental_div_mod_converse,
    lemma_mod_division_less_than_divisor, lemma_div_is_ordered_by_denominator,
};

verus! {

/// The first year a `Date` can represent.
pub const YEAR_MIN: i32 = 1;

/// The last year a `Date` can represent.
pub const YEAR_MAX: i32 = 9999;

/// A proleptic Gregorian calendar date: a plain (year, month, day) value.
///
/// A well-formed value (see [`Date::wf`]) has a year in
/// `YEAR_MIN..=YEAR_MAX`, a month in `1..=12` and a day that exists in that
/// month. All functions of this crate take and return well-formed dates.
#[derive(Clone, Copy, PartialEq, Eq, Structural, Debug)]
pub struct Date {
    pub year: i32,
    pub month: u32,
    pub day: u32,
}

/// Whether `year` is a leap year of the proleptic Gregorian calendar.
pub open spec fn is_leap_year(year: int) -> bool {
    year % 4 == 0 && (year % 100 != 0 || year % 400 == 0)
}

/// The number of days in the given month.
pub open spec fn days_in_month(year: int, month: int) -> int {
    if month == 2 {
        if is_leap_year(year) {
            29
        } else {
            28
        }
    } else if month == 4 || month == 6 || month == 9 || month == 11 {
        30
    } else {
        31
    }
}

/// The number of leap years strictly before `year` (from year 1 on).
pub open spec fn leap_years_before(year: int) -> int {
    (year - 1) / 4 - (year - 1) / 100 + (year - 1) / 400
}

/// The number of days of `year` that lie before the first of `month`.
pub open spec fn days_before_month(year: int, month: int) -> int {
    let base: int = if month <= 1 {
        0
    } else if month == 2 {
        31
    } else if month == 3 {
        59
    } else if month == 4 {
        90
    } else if month == 5 {
        120
    } else if month == 6 {
        151
    } else if month == 7 {
        181
    } else if month == 8 {
        212
    } else if month == 9 {
        243
    } else if month == 10 {
        273
    } else if month == 11 {
        304
    } else {
        334
    };
    if month >= 3 && is_leap_year(year) {
        base + 1
    } else {
        base
    }
}

/// The position of the date in the calendar: day 1 is 0001-01-01, and each
/// following day adds one. Consecutive calendar days have consecutive day
/// numbers (see [`lemma_succ_day_number`]).
pub open spec fn day_number(d: Date) -> int {
    365 * (d.year - 1) + leap_years_before(d.year as int)
        + days_before_month(d.year as int, d.month as int) + d.day
}

/// The day of the week, counted from Monday: 1 = Monday, ..., 7 = Sunday.
/// Day 0001-01-01 is a Monday.
pub open spec fn weekday_of(d: Date) -> int {
    (day_number(d) - 1) % 7 + 1
}

/// Strict order of calendar dates: earlier in time.
pub open spec fn date_lt(a: Date, b: Date) -> bool {
    ||| a.year < b.year
    ||| (a.year == b.year && a.month < b.month)
    ||| (a.year == b.year && a.month == b.month && a.day < b.day)
}

/// Order of calendar dates: on or before.
pub open spec fn date_le(a: Date, b: Date) -> bool {
    date_lt(a, b) || a == b
}

/// The day after `d`, or `None` past the last supported day.
pub open spec fn succ_spec(d: Date) -> Option<Date> {
    if d.day < days_in_month(d.year as int, d.month as int) {
        Some(Date { year: d.year, month: d.month, day: (d.day + 1) as u32 })
    } else if d.month < 12 {
        Some(Date { year: d.year, month: (d.month + 1) as u32, day: 1 })
    } else if d.year < YEAR_MAX {
        Some(Date { year: (d.year + 1) as i32, month: 1, day: 1 })
    } else {
        None
    }
}

/// The day before `d`, or `None` before the first supported day.
pub open spec fn pred_spec(d: Date) -> Option<Date> {
    if d.day > 1 {
        Some(Date { year: d.year, month: d.month, day: (d.day - 1) as u32 })
    } else if d.month > 1 {
        Some(
            Date {
                year: d.year,
                month: (d.month - 1) as u32,
                day: days_in_month(d.year as int, d.month as int - 1) as u32,
            },
        )
    } else if d.year > YEAR_MIN {
        Some(Date { year: (d.year - 1) as i32, month: 12, day: 31 })
    } else {
        None
    }
}

impl Date {
    /// The date is a real day of the calendar, within the supported years.
    pub open spec fn wf(self) -> bool {
        &&& YEAR_MIN <= self.year <= YEAR_MAX
        &&& 1 <= self.month <= 12
        &&& 1 <= self.day <= days_in_month(self.year as int, self.month as int)
    }

    /// Builds the date `year-month-day`, or `None` if no such day exists in
    /// the calendar or the year lies outside the supported range.
    pub fn new(year: i32, month: u32, day: u32) -> (r: Option<Date>)
        ensures
            match r {
                Some(d) => d.wf() && d == (Date { year, month, day }),
                None => !(Date { year, month, day }).wf(),
            },
    {
        if YEAR_MIN <= year && year <= YEAR_MAX && 1 <= month && month <= 12 && 1 <= day
            && day <= days_in_month_exec(year, month) {
            Some(Date { year, month, day })
        } else {
            None
        }
    }

    /// The year of the date.
    pub fn year(&self) -> (r: i32)
        ensures
            r == self.year,
    {
        self.year
    }

    /// The month of the date, `1..=12`.
    pub fn month(&self) -> (r: u32)
        ensures
            r == self.month,
    {
        self.month
    }

    /// The day of the month, starting at 1.
    pub fn day(&self) -> (r: u32)
        ensures
            r == self.day,
    {
        self.day
    }

    /// The day of the week, counted from Monday: 1 = Monday, ..., 7 = Sunday.
    pub fn weekday(&self) -> (r: u32)
        requires
            self.wf(),
        ensures
            r as int == weekday_of(*self),
            1 <= r <= 7,
    {
        let dn = day_number_exec(self);
        (dn - 1) % 7 + 1
    }

    /// The next calendar day, or `None` past the last supported day.
    pub fn succ(&self) -> (r: Option<Date>)
        requires
            self.wf(),
        ensures
            r == succ_spec(*self),
            (match r {
                Some(n) => n.wf() && day_number(n) == day_number(*self) + 1,
                None => true,
            }),
    {
        proof {
            if succ_spec(*self) is Some {
                lemma_succ_day_number(*self, succ_spec(*self)->0);
            }
        }
        if self.day < days_in_month_exec(self.year, self.month) {
            Some(Date { year: self.year, month: self.month, day: self.day + 1 })
        } else if self.month < 12 {
            Some(Date { year: self.year, month: self.month + 1, day: 1 })
        } else if self.year < YEAR_MAX {
            Some(Date { year: self.year + 1, month: 1, day: 1 })
        } else {
            None
        }
    }

    /// The previous calendar day, or `None` before the first supported day.
    pub fn pred(&self) -> (r: Option<Date>)
        requires
            self.wf(),
        ensures
            r == pred_spec(*self),
            (match r {
                Some(p) => p.wf() && day_number(p) == day_number(*self) - 1,
                None => true,
            }),
    {
        proof {
            if pred_spec(*self) is Some {
                lemma_pred_day_number(*self, pred_spec(*self)->0);
            }
        }
        if self.day > 1 {
            Some(Date { year: self.year, month: self.month, day: self.day - 1 })
        } else if self.month > 1 {
            Some(
                Date {
                    year: self.year,
                    month: self.month - 1,
                    day: days_in_month_exec(self.year, self.month - 1),
                },
            )
        } else if self.year > YEAR_MIN {
            Some(Date { year: self.year - 1, month: 12, day: 31 })
        } else {
            None
        }
    }

    /// Whether this date is on or before `other` in calendar order.
    pub fn on_or_before(&self, other: &Date) -> (r: bool)
        ensures
            r == date_le(*self, *other),
    {
        self.year < other.year || (self.year == other.year && (self.month < other.month || (
        self.month == other.month && self.day <= other.day)))
    }
}

/// Executable form of [`is_leap_year`].
pub fn is_leap_year_exec(year: i32) -> (r: bool)
    requires
        year >= 0,
    ensures
        r == is_leap_year(year as int),
{
    year % 4 == 0 && (year % 100 != 0 || year % 400 == 0)
}

/// Executable form of [`days_in_month`].
pub fn days_in_month_exec(year: i32, month: u32) -> (r: u32)
    requires
        year >= 0,
    ensures
        r as int == days_in_month(year as int, month as int),
        28 <= r <= 31,
{
    if month == 2 {
        if is_leap_year_exec(year) {
            29
        } else {
            28
        }
    } else if month == 4 || month == 6 || month == 9 || month == 11 {
        30
    } else {
        31
    }
}

/// Executable form of [`days_before_month`].
fn days_before_month_exec(year: i32, month: u32) -> (r: u32)
    requires
        year >= 0,
        1 <= month <= 12,
    ensures
        r as int == days_before_month(year as int, month as int),
        r <= 335,
{
    let base: u32 = if month <= 1 {
        0
    } else if month == 2 {
        31
    } else if month == 3 {
        59
    } else if month == 4 {
        90
    } else if month == 5 {
        120
    } else if month == 6 {
        151
    } else if month == 7 {
        181
    } else if month == 8 {
        212
    } else if month == 9 {
        243
    } else if month == 10 {
        273
    } else if month == 11 {
        304
    } else {
        334
    };
    if month >= 3 && is_leap_year_exec(year) {
        base + 1
    } else {
        base
    }
}

/// Executable form of [`day_number`].
fn day_number_exec(d: &Date) -> (r: u32)
    requires
        d.wf(),
    ensures
        r as int == day_number(*d),
        1 <= r,
{
    let ym1 = (d.year - 1) as u32;
    proof {
        lemma_div_is_ordered_by_denominator(ym1 as int, 4, 100);
    }
    let leaps = ym1 / 4 - ym1 / 100 + ym1 / 400;
    let dbm = days_before_month_exec(d.year, d.month);
    365 * ym1 + leaps + dbm + d.day
}

/// For positive `y` and `k`, stepping the dividend from `y - 1` to `y`
/// raises the quotient exactly when `k` divides `y`.
proof fn lemma_div_step(y: int, k: int)
    requires
        1 <= y,
        1 <= k,
    ensures
        y / k == (y - 1) / k + if y % k == 0 {
            1int
        } else {
            0int
        },
{
    let q = (y - 1) / k;
    let r = (y - 1) % k;
    lemma_fundamental_div_mod(y - 1, k);
    lemma_mod_division_less_than_divisor(y - 1, k);
    if r == k - 1 {
        assert((q + 1) * k == q * k + k) by (nonlinear_arith);
        lemma_fundamental_div_mod_converse(y, k, q + 1, 0);
    } else {
        lemma_fundamental_div_mod_converse(y, k, q, r + 1);
    }
}

/// If `b` divides `a` and `k` divides `b / ...`-wise (`b == m * k`), then a
/// multiple of `b` is a multiple of `k`: here specialised to show that a
/// year divisible by 100 is divisible by 4, and one divisible by 400 by 100.
proof fn lemma_divisibility_chain(y: int)
    ensures
        y % 100 == 0 ==> y % 4 == 0,
        y % 400 == 0 ==> y % 100 == 0,
{
    if y % 100 == 0 {
        lemma_fundamental_div_mod(y, 100);
        let t = y / 100;
        assert(t * 100 == (t * 25) * 4) by (nonlinear_arith);
        lemma_fundamental_div_mod(y, 4);
        lemma_mod_division_less_than_divisor(y, 4);
        lemma_fundamental_div_mod_converse(y, 4, t * 25, 0);
    }
    if y % 400 == 0 {
        lemma_fundamental_div_mod(y, 400);
        let t = y / 400;
        assert(t * 400 == (t * 4) * 100) by (nonlinear_arith);
        lemma_fundamental_div_mod(y, 100);
        lemma_mod_division_less_than_divisor(y, 100);
        lemma_fundamental_div_mod_converse(y, 100, t * 4, 0);
    }
}

/// Stepping from `year` to `year + 1` adds one leap year to the count
/// exactly when `year` itself is a leap year.
proof fn lemma_leap_years_before_step(y: int)
    requires
        1 <= y,
    ensures
        leap_years_before(y + 1) == leap_years_before(y) + if is_leap_year(y) {
            1int
        } else {
            0int
        },
{
    lemma_div_step(y, 4);
    lemma_div_step(y, 100);
    lemma_div_step(y, 400);
    lemma_divisibility_chain(y);
}

/// The day count before a month grows by that month's length.
proof fn lemma_days_before_month_step(y: int, m: int)
    requires
        1 <= m <= 11,
    ensures
        days_before_month(y, m + 1) == days_before_month(y, m) + days_in_month(y, m),
{
}

/// The day after a well-formed date is well formed and has the next
/// day number.
pub proof fn lemma_succ_day_number(d: Date, n: Date)
    requires
        d.wf(),
        succ_spec(d) == Some(n),
    ensures
        n.wf(),
        day_number(n) == day_number(d) + 1,
{
    if d.day < days_in_month(d.year as int, d.month as int) {
    } else if d.month < 12 {
        lemma_days_before_month_step(d.year as int, d.month as int);
    } else {
        lemma_days_before_month_step(d.year as int, 11);
        lemma_leap_years_before_step(d.year as int);
    }
}

/// The day before a well-formed date is well formed, has the previous day
/// number, and `d` as its successor.
pub proof fn lemma_pred_day_number(d: Date, p: Date)
    requires
        d.wf(),
        pred_spec(d) == Some(p),
    ensures
        p.wf(),
        day_number(p) == day_number(d) - 1,
        succ_spec(p) == Some(d),
{
    if d.day > 1 {
    } else if d.month > 1 {
        lemma_days_before_month_step(d.year as int, d.month as int - 1);
    } else {
        lemma_days_before_month_step(d.year as int - 1, 11);
        lemma_leap_years_before_step(d.year as int - 1);
    }
}

/// Taking the day after and then the day before leads back: `succ` and
/// `pred` are inverse to each other.
pub proof fn lemma_succ_pred(d: Date, n: Date)
    requires
        d.wf(),
        succ_spec(d) == Some(n),
    ensures
        pred_spec(n) == Some(d),
{
}

/// Moving to the next day steps the weekday cyclically: Monday after
/// Sunday, otherwise one further.
pub proof fn lemma_weekday_succ(d: Date, n: Date)
    requires
        d.wf(),
        succ_spec(d) == Some(n),
    ensures
        weekday_of(n) == if weekday_of(d) == 7 {
            1int
        } else {
            weekday_of(d) + 1
        },
{
    lemma_succ_day_number(d, n);
    let a = day_number(d) - 1;
    lemma_fundamental_div_mod(a, 7);
    lemma_mod_division_less_than_divisor(a, 7);
    lemma_mod_division_less_than_divisor(a + 1, 7);
    if a % 7 == 6 {
        assert(((a / 7) + 1) * 7 == (a / 7) * 7 + 7) by (nonlinear_arith);
        lemma_fundamental_div_mod_converse(a + 1, 7, a / 7 + 1, 0);
    } else {
        lemma_fundamental_div_mod_converse(a + 1, 7, a / 7, a % 7 + 1);
    }
}

/// The date of the `week`-th `weekday` of the month of `d`: counting
/// occurrences of the requested weekday inside that month, the date of the
/// `week`-th one, or `None` if the month has no such occurrence or the
/// requested week or weekday lies outside `1..=5` and `1..=7`.
pub open spec fn week_day_spec(d: Date, week: u32, weekday: u32) -> Option<Date> {
    if 1 <= week <= 5 && 1 <= weekday <= 7 {
        let first = Date { year: d.year, month: d.month, day: 1 };
        let offset = (weekday + 7 - weekday_of(first)) % 7;
        let dom = 1 + offset + 7 * (week - 1);
        if dom <= days_in_month(d.year as int, d.month as int) {
            Some(Date { year: d.year, month: d.month, day: dom as u32 })
        } else {
            None
        }
    } else {
        None
    }
}

/// The date of the `week`-th `weekday` (1 = Monday, ..., 7 = Sunday) of the
/// month that `date` lies in, or `None` when the month has no such day
/// (for example no fifth Monday) or `week` or `weekday` is out of range.
pub fn week_day(date: &Date, week: u32, weekday: u32) -> (r: Option<Date>)
    requires
        date.wf(),
    ensures
        r == week_day_spec(*date, week, weekday),
        (match r {
            Some(x) => x.wf(),
            None => true,
        }),
{
    if !(1 <= week && week <= 5) {
        return None;
    }
    if !(1 <= weekday && weekday <= 7) {
        return None;
    }
    let first = Date { year: date.year, month: date.month, day: 1 };
    let w1 = first.weekday();
    let offset = (weekday + 7 - w1) % 7;
    let dom = 1 + offset + 7 * (week - 1);
    if dom <= days_in_month_exec(date.year, date.month) {
        Some(Date { year: date.year, month: date.month, day: dom })
    } else {
        None
    }
}

} // verus!
