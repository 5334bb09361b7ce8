//! Range queries: all holidays of a month, of a year, and of an inclusive
//! interval of dates, each as a list of (date, name) pairs in date order.

use vstd::prelude::*;
use crate::date::{date_le, date_lt, succ_spec, Date};
use crate::resolve::{holiday_name_spec, is_holiday_name};

verus! {

/// The (date, name) pairs a list of holidays stands for: each held string
/// replaced by the character sequence it views to.
pub open spec fn entries_view(v: Seq<(Date, String)>) -> Seq<(Date, Seq<char>)> {
    v.map_values(|e: (Date, String)| (e.0, e.1@))
}

/// What a single day contributes to a range query: the day paired with its
/// holiday name if the date exists in the calendar and is a holiday, and
/// nothing otherwise. Kept opaque so that reasoning about the mere shape of
/// a query result need not look into the holiday rules; see
/// [`lemma_day_entries_shape`].
#[verifier::opaque]
pub open spec fn day_entries(d: Date) -> Seq<(Date, Seq<char>)> {
    if d.wf() {
        match holiday_name_spec(d) {
            Some(n) => seq![(d, n)],
            None => Seq::empty(),
        }
    } else {
        Seq::empty()
    }
}

/// A day contributes at most one entry, that entry carries the day itself
/// and its holiday name, and it is present exactly when the day exists and
/// is a holiday.
pub proof fn lemma_day_entries_shape(d: Date)
    ensures
        day_entries(d).len() <= 1,
        forall|i: int| 0 <= i < day_entries(d).len() ==> (#[trigger] day_entries(d)[i]).0 == d,
        day_entries(d).len() == 1 <==> (d.wf() && holiday_name_spec(d) is Some),
        d.wf() && holiday_name_spec(d) is Some ==> day_entries(d) == seq![
            (d, holiday_name_spec(d)->0),
        ],
{
    reveal(day_entries);
}

/// The holidays among the days `1 ..= day_end - 1` of the given month that
/// exist in the calendar, in day order.
pub open spec fn month_holidays_upto(year: i32, month: u32, day_end: int) -> Seq<
    (Date, Seq<char>),
>
    decreases day_end,
{
    if day_end <= 1 {
        Seq::empty()
    } else {
        month_holidays_upto(year, month, day_end - 1) + day_entries(
            Date { year, month, day: (day_end - 1) as u32 },
        )
    }
}

/// The holidays of the given month, in day order.
pub open spec fn month_holidays_spec(year: i32, month: u32) -> Seq<(Date, Seq<char>)> {
    month_holidays_upto(year, month, 32)
}

/// The holidays of months `1 ..= month_end - 1` of the given year, in date
/// order.
pub open spec fn year_holidays_upto(year: i32, month_end: int) -> Seq<(Date, Seq<char>)>
    decreases month_end,
{
    if month_end <= 1 {
        Seq::empty()
    } else {
        year_holidays_upto(year, month_end - 1) + month_holidays_spec(
            year,
            (month_end - 1) as u32,
        )
    }
}

/// The holidays of the given year, in date order.
pub open spec fn year_holidays_spec(year: i32) -> Seq<(Date, Seq<char>)> {
    year_holidays_upto(year, 13)
}

/// The holidays of the days from `d` through `end`, both inclusive, in
/// date order: empty when `d` lies after `end`.
pub open spec fn between_spec(d: Date, end: Date) -> Seq<(Date, Seq<char>)>
    decreases end.year - d.year, 12 - d.month, 31 - d.day,
{
    if !d.wf() || !end.wf() || !date_le(d, end) {
        Seq::empty()
    } else if d == end {
        day_entries(d)
    } else {
        match succ_spec(d) {
            Some(n) => day_entries(d) + between_spec(n, end),
            None => day_entries(d),
        }
    }
}

/// Appending one pair to a holiday list appends its viewed pair.
proof fn lemma_entries_view_push(v: Seq<(Date, String)>, x: (Date, String))
    ensures
        entries_view(v.push(x)) == entries_view(v) + seq![(x.0, x.1@)],
{
    assert(entries_view(v.push(x)) =~= entries_view(v) + seq![(x.0, x.1@)]);
}

/// Concatenating two holiday lists concatenates their views.
proof fn lemma_entries_view_concat(a: Seq<(Date, String)>, b: Seq<(Date, String)>)
    ensures
        entries_view(a + b) == entries_view(a) + entries_view(b),
{
    assert(entries_view(a + b) =~= entries_view(a) + entries_view(b));
}

/// Every entry of a month's partial list lies in that month with a day
/// before `day_end`, and the entries strictly increase in date.
proof fn lemma_month_upto_ordered(year: i32, month: u32, day_end: int)
    requires
        day_end <= 32,
    ensures
        forall|i: int| 0 <= i < month_holidays_upto(year, month, day_end).len() ==> {
            &&& (#[trigger] month_holidays_upto(year, month, day_end)[i]).0.year == year
            &&& month_holidays_upto(year, month, day_end)[i].0.month == month
            &&& 1 <= month_holidays_upto(year, month, day_end)[i].0.day
            &&& month_holidays_upto(year, month, day_end)[i].0.day as int <= day_end - 1
        },
        forall|i: int, j: int|
            0 <= i < j < month_holidays_upto(year, month, day_end).len() ==> date_lt(
                (#[trigger] month_holidays_upto(year, month, day_end)[i]).0,
                (#[trigger] month_holidays_upto(year, month, day_end)[j]).0,
            ),
    decreases day_end,
{
    if day_end <= 1 {
    } else {
        lemma_month_upto_ordered(year, month, day_end - 1);
        let prev = month_holidays_upto(year, month, day_end - 1);
        let d = Date { year, month, day: (day_end - 1) as u32 };
        lemma_day_entries_shape(d);
        let s = month_holidays_upto(year, month, day_end);
        assert forall|i: int| 0 <= i < s.len() implies {
            &&& (#[trigger] s[i]).0.year == year
            &&& s[i].0.month == month
            &&& 1 <= s[i].0.day
            &&& s[i].0.day as int <= day_end - 1
        } by {
            if i < prev.len() {
                assert(s[i] == prev[i]);
            } else {
                assert(s[i] == day_entries(d)[i - prev.len()]);
                assert(s[i].0 == d);
            }
        }
        assert forall|i: int, j: int| 0 <= i < j < s.len() implies date_lt(
            (#[trigger] s[i]).0,
            (#[trigger] s[j]).0,
        ) by {
            if j < prev.len() {
                assert(s[i] == prev[i]);
                assert(s[j] == prev[j]);
            } else {
                assert(i < prev.len());
                assert(s[i] == prev[i]);
                assert(s[j] == day_entries(d)[j - prev.len()]);
                assert(s[j].0 == d);
            }
        }
    }
}

/// Every entry of a year's partial list lies in that year with a month
/// before `month_end`, and the entries strictly increase in date.
proof fn lemma_year_upto_ordered(year: i32, month_end: int)
    requires
        month_end <= 13,
    ensures
        forall|i: int| 0 <= i < year_holidays_upto(year, month_end).len() ==> {
            &&& (#[trigger] year_holidays_upto(year, month_end)[i]).0.year == year
            &&& 1 <= year_holidays_upto(year, month_end)[i].0.month
            &&& year_holidays_upto(year, month_end)[i].0.month as int <= month_end - 1
        },
        forall|i: int, j: int|
            0 <= i < j < year_holidays_upto(year, month_end).len() ==> date_lt(
                (#[trigger] year_holidays_upto(year, month_end)[i]).0,
                (#[trigger] year_holidays_upto(year, month_end)[j]).0,
            ),
    decreases month_end,
{
    if month_end <= 1 {
    } else {
        lemma_year_upto_ordered(year, month_end - 1);
        let m = (month_end - 1) as u32;
        lemma_month_upto_ordered(year, m, 32);
        let prev = year_holidays_upto(year, month_end - 1);
        let seg = month_holidays_upto(year, m, 32);
        let s = year_holidays_upto(year, month_end);
        assert forall|i: int| 0 <= i < s.len() implies {
            &&& (#[trigger] s[i]).0.year == year
            &&& 1 <= s[i].0.month
            &&& s[i].0.month as int <= month_end - 1
        } by {
            if i < prev.len() {
                assert(s[i] == prev[i]);
            } else {
                assert(s[i] == seg[i - prev.len()]);
            }
        }
        assert forall|i: int, j: int| 0 <= i < j < s.len() implies date_lt(
            (#[trigger] s[i]).0,
            (#[trigger] s[j]).0,
        ) by {
            if j < prev.len() {
                assert(s[i] == prev[i]);
                assert(s[j] == prev[j]);
            } else if i < prev.len() {
                assert(s[i] == prev[i]);
                assert(s[j] == seg[j - prev.len()]);
            } else {
                assert(s[i] == seg[i - prev.len()]);
                assert(s[j] == seg[j - prev.len()]);
            }
        }
    }
}

/// The holidays of a year are the holidays of its twelve months,
/// concatenated in month order: the year query misses nothing that a month
/// query reports and adds nothing of its own.
pub proof fn lemma_year_is_month_concatenation(year: i32)
    ensures
        year_holidays_spec(year) == month_holidays_spec(year, 1) + month_holidays_spec(year, 2)
            + month_holidays_spec(year, 3) + month_holidays_spec(year, 4) + month_holidays_spec(
            year,
            5,
        ) + month_holidays_spec(year, 6) + month_holidays_spec(year, 7) + month_holidays_spec(
            year,
            8,
        ) + month_holidays_spec(year, 9) + month_holidays_spec(year, 10) + month_holidays_spec(
            year,
            11,
        ) + month_holidays_spec(year, 12),
{
    reveal_with_fuel(year_holidays_upto, 14);
    assert(Seq::<(Date, Seq<char>)>::empty() + month_holidays_spec(year, 1)
        =~= month_holidays_spec(year, 1));
}

/// Within the holidays of a year the dates strictly increase: the list is
/// in date order and holds no date twice.
pub proof fn lemma_year_holidays_ordered(year: i32)
    ensures
        forall|i: int, j: int|
            0 <= i < j < year_holidays_spec(year).len() ==> date_lt(
                (#[trigger] year_holidays_spec(year)[i]).0,
                (#[trigger] year_holidays_spec(year)[j]).0,
            ),
{
    lemma_year_upto_ordered(year, 13);
}

/// A range query over a single day reports exactly that day's holiday,
/// lifted into a one-element or empty list.
pub proof fn lemma_between_single_day(d: Date)
    requires
        d.wf(),
    ensures
        between_spec(d, d) == (match holiday_name_spec(d) {
            Some(n) => seq![(d, n)],
            None => Seq::<(Date, Seq<char>)>::empty(),
        }),
{
    reveal(day_entries);
}

/// The holidays of the given month, each with its date: for every day of
/// the month, in day order, the holiday observed on it, if any. An empty
/// list when the month has no holidays, and also when `month` is not a
/// month or `year` lies outside the supported years.
pub fn month_holidays(year: i32, month: u32) -> (r: Vec<(Date, String)>)
    ensures
        entries_view(r@) == month_holidays_spec(year, month),
{
    let mut holidays: Vec<(Date, String)> = Vec::new();
    assert(entries_view(holidays@) =~= month_holidays_upto(year, month, 1));
    let mut day: u32 = 1;
    while day <= 31
        invariant
            1 <= day <= 32,
            entries_view(holidays@) == month_holidays_upto(year, month, day as int),
        decreases 32 - day,
    {
        let ghost candidate = Date { year, month, day };
        proof {
            lemma_day_entries_shape(candidate);
        }
        match Date::new(year, month, day) {
            Some(date) => {
                match is_holiday_name(date) {
                    Some(name) => {
                        proof {
                            lemma_entries_view_push(holidays@, (date, name));
                        }
                        holidays.push((date, name));
                    },
                    None => {
                        proof {
                            assert(entries_view(holidays@) + day_entries(candidate)
                                =~= entries_view(holidays@));
                        }
                    },
                }
            },
            None => {
                proof {
                    assert(entries_view(holidays@) + day_entries(candidate) =~= entries_view(
                        holidays@,
                    ));
                }
            },
        }
        day = day + 1;
    }
    holidays
}

/// The holidays of the given year, each with its date, in date order. An
/// empty list when `year` lies outside the supported years.
pub fn year_holidays(year: i32) -> (r: Vec<(Date, String)>)
    ensures
        entries_view(r@) == year_holidays_spec(year),
{
    let mut holidays: Vec<(Date, String)> = Vec::new();
    assert(entries_view(holidays@) =~= year_holidays_upto(year, 1));
    let mut month: u32 = 1;
    while month <= 12
        invariant
            1 <= month <= 13,
            entries_view(holidays@) == year_holidays_upto(year, month as int),
        decreases 13 - month,
    {
        let mut part = month_holidays(year, month);
        proof {
            lemma_entries_view_concat(holidays@, part@);
        }
        holidays.append(&mut part);
        month = month + 1;
    }
    holidays
}

/// The holidays of the days from `start_date` through `end_date`, both
/// inclusive, each with its date, in date order.
pub fn holidays(start_date: Date, end_date: Date) -> (r: Vec<(Date, String)>)
    requires
        start_date.wf(),
        end_date.wf(),
    ensures
        entries_view(r@) == between_spec(start_date, end_date),
{
    between(start_date, end_date)
}

/// The holidays of the days from `start_date` through `end_date`, both
/// inclusive, each with its date, in date order. An alias of [`holidays`].
pub fn between(start_date: Date, end_date: Date) -> (r: Vec<(Date, String)>)
    requires
        start_date.wf(),
        end_date.wf(),
    ensures
        entries_view(r@) == between_spec(start_date, end_date),
{
    let mut holidays: Vec<(Date, String)> = Vec::new();
    if !start_date.on_or_before(&end_date) {
        assert(entries_view(holidays@) =~= between_spec(start_date, end_date));
        return holidays;
    }
    let mut date = start_date;
    assert(entries_view(holidays@) + between_spec(date, end_date) =~= between_spec(
        start_date,
        end_date,
    ));
    loop
        invariant
            date.wf(),
            end_date.wf(),
            date_le(date, end_date),
            between_spec(start_date, end_date) == entries_view(holidays@) + between_spec(
                date,
                end_date,
            ),
        decreases end_date.year - date.year, 12 - date.month, 31 - date.day,
    {
        let ghost pre = holidays@;
        let ghost rest: Seq<(Date, Seq<char>)> = if date == end_date {
            Seq::empty()
        } else {
            match succ_spec(date) {
                Some(n) => between_spec(n, end_date),
                None => Seq::empty(),
            }
        };
        proof {
            lemma_day_entries_shape(date);
            assert(between_spec(date, end_date) =~= day_entries(date) + rest);
            assert(entries_view(pre) + (day_entries(date) + rest) =~= (entries_view(pre)
                + day_entries(date)) + rest);
        }
        match is_holiday_name(date) {
            Some(name) => {
                proof {
                    lemma_entries_view_push(holidays@, (date, name));
                }
                holidays.push((date, name));
                assert(entries_view(holidays@) =~= entries_view(pre) + day_entries(date));
            },
            None => {
                assert(entries_view(holidays@) =~= entries_view(pre) + day_entries(date));
            },
        }
        if date == end_date {
            proof {
                assert(entries_view(holidays@) + rest =~= entries_view(holidays@));
            }
            return holidays;
        }
        match date.succ() {
            Some(n) => {
                date = n;
            },
            None => {
                proof {
                    assert(entries_view(holidays@) + rest =~= entries_view(holidays@));
                }
                return holidays;
            },
        }
    }
}

} // verus!
