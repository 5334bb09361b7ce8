//! The holiday resolvers layered over the rule set: the substitute-holiday
//! backward scan, the base resolver (rules plus substitutes), and the
//! top-level resolver that adds the citizen's-holiday bridge rule. The base
//! resolver deliberately excludes the bridge rule, since the bridge rule
//! evaluates the base resolver on the neighbouring days; keeping the two
//! entry points distinct is what makes the evaluation well founded.

use vstd::prelude::*;
use vstd::string::StringExecFns;
use crate::date::{
    lemma_succ_day_number, lemma_succ_pred, lemma_weekday_succ, pred_spec, succ_spec, weekday_of,
    Date,
};
use crate::rules::{first_kind, first_match, kind_name, kind_name_string, HolidayKind};

verus! {

/// The name given to the substituted observance of holiday `k`: the
/// holiday's own name followed by the substitute-holiday suffix.
pub open spec fn substitute_name(k: HolidayKind) -> Seq<char> {
    kind_name(k) + " 振替休日"@
}

/// The backward scan of the substitute-holiday rule, at the day `d` being
/// visited: if no rule matches `d` the chain is broken and there is no
/// substitute; if a rule matches and `d` is a Sunday, that rule's holiday
/// is the one being substituted; otherwise the scan moves to the previous
/// day. The scan stops without a result at the edge of the calendar.
pub open spec fn substitute_walk(d: Date) -> Option<HolidayKind>
    decreases d.year, d.month, d.day,
{
    if !d.wf() {
        None
    } else {
        match first_kind(d) {
            None => None,
            Some(k) => if weekday_of(d) == 7 {
                Some(k)
            } else {
                match pred_spec(d) {
                    Some(p) => substitute_walk(p),
                    None => None,
                }
            },
        }
    }
}

/// The substitute holiday observed on `d`, if any: none before the rule's
/// effective year 1973 and none on Sundays; otherwise the result of the
/// backward scan starting the day before `d`.
pub open spec fn substitute_spec(d: Date) -> Option<HolidayKind> {
    if d.year < 1973 {
        None
    } else if weekday_of(d) == 7 {
        None
    } else {
        match pred_spec(d) {
            Some(p) => substitute_walk(p),
            None => None,
        }
    }
}

/// What the base resolver reports for `d`: the first matching rule's name,
/// else the substitute holiday's name, else nothing. The citizen's-holiday
/// bridge rule is deliberately not part of this.
pub open spec fn base_name_spec(d: Date) -> Option<Seq<char>> {
    match first_kind(d) {
        Some(k) => Some(kind_name(k)),
        None => match substitute_spec(d) {
            Some(k) => Some(substitute_name(k)),
            None => None,
        },
    }
}

/// What the top-level resolver reports for `d`: the base resolver's name
/// if it has one; otherwise, for a non-Sunday whose both calendar
/// neighbours exist and are base holidays, the citizen's holiday; otherwise
/// nothing.
pub open spec fn holiday_name_spec(d: Date) -> Option<Seq<char>> {
    if base_name_spec(d) is Some {
        base_name_spec(d)
    } else if weekday_of(d) == 7 {
        None
    } else {
        match (succ_spec(d), pred_spec(d)) {
            (Some(n), Some(p)) => if base_name_spec(n) is Some && base_name_spec(p) is Some {
                Some("国民の休日"@)
            } else {
                None
            },
            _ => None,
        }
    }
}

/// Whether `d` is a holiday.
pub open spec fn is_holiday_spec(d: Date) -> bool {
    holiday_name_spec(d) is Some
}

/// Whether `d` is a Saturday, a Sunday or a holiday.
pub open spec fn is_no_workday_spec(d: Date) -> bool {
    weekday_of(d) == 6 || weekday_of(d) == 7 || is_holiday_spec(d)
}

/// An optional holiday name held as a string matches an optional name at
/// the specification level: both absent, or both present and equal.
pub open spec fn name_matches(r: Option<String>, s: Option<Seq<char>>) -> bool {
    match (r, s) {
        (Some(x), Some(y)) => x@ == y,
        (None, None) => true,
        _ => false,
    }
}

/// The substitute holiday observed on `date`, under the name
/// `<holiday name> 振替休日`, or `None` if no holiday's observance shifts
/// onto `date`.
pub fn substitute_holiday(date: &Date) -> (r: Option<String>)
    requires
        date.wf(),
    ensures
        (match substitute_spec(*date) {
            Some(k) => r is Some && r->0@ == substitute_name(k),
            None => r is None,
        }),
{
    if date.year() < 1973 {
        return None;
    }
    if date.weekday() == 7 {
        return None;
    }
    let mut current = match date.pred() {
        Some(p) => p,
        None => {
            return None;
        },
    };
    loop
        invariant
            current.wf(),
            substitute_walk(current) == substitute_spec(*date),
        decreases current.year, current.month, current.day,
    {
        match first_match(&current) {
            None => {
                return None;
            },
            Some(k) => {
                if current.weekday() == 7 {
                    let name = kind_name_string(k);
                    return Some(name.concat(" 振替休日"));
                }
                current = match current.pred() {
                    Some(p) => p,
                    None => {
                        return None;
                    },
                };
            },
        }
    }
}

/// The base resolver: the first matching rule's name, else the substitute
/// holiday, else `None`; the citizen's-holiday bridge rule is excluded.
fn calc_holiday_without_national_holiday(date: &Date) -> (r: Option<String>)
    requires
        date.wf(),
    ensures
        name_matches(r, base_name_spec(*date)),
{
    match first_match(date) {
        Some(k) => Some(kind_name_string(k)),
        None => substitute_holiday(date),
    }
}

/// The top-level resolver: the base resolver's result, completed by the
/// citizen's-holiday bridge rule for a non-Sunday flanked by base holidays
/// on both sides.
fn calc_holiday(date: &Date) -> (r: Option<String>)
    requires
        date.wf(),
    ensures
        name_matches(r, holiday_name_spec(*date)),
{
    if let Some(name) = calc_holiday_without_national_holiday(date) {
        return Some(name);
    }
    if date.weekday() == 7 {
        return None;
    }
    let next_day = match date.succ() {
        Some(n) => n,
        None => {
            return None;
        },
    };
    let prev_day = match date.pred() {
        Some(p) => p,
        None => {
            return None;
        },
    };
    let next_day_holiday = calc_holiday_without_national_holiday(&next_day);
    let prev_day_holiday = calc_holiday_without_national_holiday(&prev_day);
    if next_day_holiday.is_some() && prev_day_holiday.is_some() {
        return Some("国民の休日".to_owned());
    }
    None
}

/// The name of the holiday observed on `date`, or `None` if `date` is not
/// a holiday.
pub fn is_holiday_name(date: Date) -> (r: Option<String>)
    requires
        date.wf(),
    ensures
        name_matches(r, holiday_name_spec(date)),
{
    calc_holiday(&date)
}

/// The name of the holiday observed on `date`, or `None` if `date` is not
/// a holiday. An alias of [`is_holiday_name`].
pub fn holiday_name(date: Date) -> (r: Option<String>)
    requires
        date.wf(),
    ensures
        name_matches(r, holiday_name_spec(date)),
{
    is_holiday_name(date)
}

/// Whether `date` is a holiday.
pub fn is_holiday(date: Date) -> (r: bool)
    requires
        date.wf(),
    ensures
        r == is_holiday_spec(date),
{
    is_holiday_name(date).is_some()
}

/// Whether `date` is a non-working day: a Saturday, a Sunday or a holiday.
pub fn is_no_workday(date: Date) -> (r: bool)
    requires
        date.wf(),
    ensures
        r == is_no_workday_spec(date),
{
    if date.weekday() == 6 || date.weekday() == 7 {
        return true;
    }
    is_holiday(date)
}

/// A date is a holiday exactly when it has a holiday name.
pub proof fn lemma_is_holiday_iff_named(d: Date)
    ensures
        is_holiday_spec(d) <==> holiday_name_spec(d) is Some,
{
}

/// The holiday name of a date is a function of the date alone: any two
/// evaluations for the same date give the same result.
pub proof fn lemma_holiday_name_deterministic(
    d: Date,
    r1: Option<Seq<char>>,
    r2: Option<Seq<char>>,
)
    requires
        r1 == holiday_name_spec(d),
        r2 == holiday_name_spec(d),
    ensures
        r1 == r2,
{
}

/// Before the substitute-holiday rule took effect in 1973, no date has a
/// substitute holiday.
pub proof fn lemma_no_substitute_before_1973(d: Date)
    requires
        d.year < 1973,
    ensures
        substitute_spec(d) is None,
{
}

/// From 1973 on, a holiday that falls on a Sunday produces a substitute:
/// the day after it is observed as that holiday's substitute holiday.
pub proof fn lemma_substitute_after_sunday_holiday(p: Date, d: Date)
    requires
        p.wf(),
        succ_spec(p) == Some(d),
        d.year >= 1973,
        weekday_of(p) == 7,
        first_kind(p) is Some,
    ensures
        substitute_spec(d) == Some(first_kind(p)->0),
{
    lemma_succ_day_number(p, d);
    lemma_weekday_succ(p, d);
    lemma_succ_pred(p, d);
}

} // verus!
