//! Closed-form approximation of the vernal and autumnal equinox days.
//!
//! The approximation is the widely used linear formula
//! `floor(C + 0.242194 * (year - 1980)) - floor((year - 1980) / 4)`, with the
//! constant `C` chosen by the historical year band the year falls in. It is
//! computed here exactly, in fixed-point arithmetic with six decimal places.
//! For years at or before 1948 (before the holidays legally existed under
//! their current names) and outside all bands the result is 0, a day of the
//! month that no real date ever has, so that callers comparing
//! `date.day == equinox day` safely read it as "no holiday this year".

use vstd::prelude::*;
use crate::date::{YEAR_MAX, YEAR_MIN};

verus! {

/// One millionth, the scale of the fixed-point constants below.
pub const SCALE: i64 = 1000000;

/// The yearly drift of the equinox, scaled by [`SCALE`]: 0.242194 days.
pub const DRIFT: i64 = 242194;

/// The equinox day of month for a year in one of the four bands, from the
/// band's constant `c` (scaled by [`SCALE`]): the linear drift term minus
/// one day per elapsed leap cycle, clamped at 0 from below.
pub open spec fn equinox_from_constant(c: int, year: int) -> int {
    let delta = year - 1980;
    let linear = (c + DRIFT * delta) / (SCALE as int);
    let v = linear - delta / 4;
    if v >= 0 {
        v
    } else {
        0
    }
}

/// The approximate day of March or September on which an equinox falls,
/// given the band constants: 0 for years at or before 1948 and for years
/// past the last band.
pub open spec fn equinox_day(year: int, c1851: int, c1900: int, c1980: int, c2100: int) -> int {
    if year <= 1948 {
        0
    } else if 1851 <= year <= 1899 {
        equinox_from_constant(c1851, year)
    } else if 1900 <= year <= 1979 {
        equinox_from_constant(c1900, year)
    } else if 1980 <= year <= 2099 {
        equinox_from_constant(c1980, year)
    } else if 2100 <= year <= 2150 {
        equinox_from_constant(c2100, year)
    } else {
        equinox_from_constant(0, year)
    }
}

/// The approximate day of March on which the vernal equinox falls.
pub open spec fn vernal_equinox_day(year: int) -> int {
    equinox_day(year, 19827700, 20835700, 20843100, 21851000)
}

/// The approximate day of September on which the autumnal equinox falls.
pub open spec fn autumnal_equinox_day(year: int) -> int {
    equinox_day(year, 22258800, 23258800, 23248800, 24248800)
}

/// Floor division of `delta` by 4 for the bounded range the formula sees.
fn floor_div_4(delta: i64) -> (r: i64)
    requires
        -8000 <= delta <= 8200,
    ensures
        r as int == (delta as int) / 4,
{
    proof {
        vstd::arithmetic::div_mod::lemma_fundamental_div_mod(delta as int + 8000, 4);
        vstd::arithmetic::div_mod::lemma_mod_division_less_than_divisor(delta as int + 8000, 4);
        vstd::arithmetic::div_mod::lemma_fundamental_div_mod_converse(
            delta as int,
            4,
            (delta as int + 8000) / 4 - 2000,
            (delta as int + 8000) % 4,
        );
    }
    (delta + 8000) / 4 - 2000
}

/// Executable form of [`equinox_from_constant`].
fn equinox_from_constant_exec(c: i64, year: i32) -> (r: u32)
    requires
        0 <= c <= 25000000,
        YEAR_MIN <= year <= YEAR_MAX,
        c + DRIFT * (year - 1980) >= 0,
    ensures
        r as int == equinox_from_constant(c as int, year as int),
{
    let delta = (year as i64) - 1980;
    let linear = (c + DRIFT * delta) / SCALE;
    let quarters = floor_div_4(delta);
    let v = linear - quarters;
    if v >= 0 {
        v as u32
    } else {
        0
    }
}

/// Executable form of [`equinox_day`].
fn equinox_day_exec(year: i32, c1851: i64, c1900: i64, c1980: i64, c2100: i64) -> (r: u32)
    requires
        YEAR_MIN <= year <= YEAR_MAX,
        19000000 <= c1851 <= 25000000,
        19000000 <= c1900 <= 25000000,
        19000000 <= c1980 <= 25000000,
        19000000 <= c2100 <= 25000000,
    ensures
        r as int == equinox_day(year as int, c1851 as int, c1900 as int, c1980 as int, c2100 as int),
{
    if year <= 1948 {
        0
    } else if 1851 <= year && year <= 1899 {
        equinox_from_constant_exec(c1851, year)
    } else if 1900 <= year && year <= 1979 {
        equinox_from_constant_exec(c1900, year)
    } else if 1980 <= year && year <= 2099 {
        equinox_from_constant_exec(c1980, year)
    } else if 2100 <= year && year <= 2150 {
        equinox_from_constant_exec(c2100, year)
    } else {
        equinox_from_constant_exec(0, year)
    }
}

/// Executable form of [`vernal_equinox_day`].
pub fn vernal_equinox_day_exec(year: i32) -> (r: u32)
    requires
        YEAR_MIN <= year <= YEAR_MAX,
    ensures
        r as int == vernal_equinox_day(year as int),
{
    equinox_day_exec(year, 19827700, 20835700, 20843100, 21851000)
}

/// Executable form of [`autumnal_equinox_day`].
pub fn autumnal_equinox_day_exec(year: i32) -> (r: u32)
    requires
        YEAR_MIN <= year <= YEAR_MAX,
    ensures
        r as int == autumnal_equinox_day(year as int),
{
    equinox_day_exec(year, 22258800, 23258800, 23248800, 24248800)
}

} // verus!
