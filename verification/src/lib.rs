//! Determination of Japanese public holidays for proleptic Gregorian
//! calendar dates, covering the statutory holiday rules from 1948 onward,
//! the substitute-holiday rule of 1973, and the citizen's-holiday bridge
//! rule, together with range queries over months, years and intervals.

pub mod date;
pub mod equinox;
pub mod rules;
pub mod resolve;
pub mod ranges;

pub use date::{week_day, Date};
pub use rules::{
    AutumnalEquinoxDay, ChildrensDay, ComingOfAgeDay, ConstitutionMemorialDay, CultureDay,
    EmperorsBirthday, GreeneryDay, HealthAndSportsDay, HolidayKind,
    ImperialEventsTheCeremonyOfTheEnthronementOfTheEmperor,
    ImperialEventsTheDayOfTheEmperorsEnthronement, ImperialEventsTheEnthronementCeremony,
    ImperialEventsTheFuneralOfEmperorShowa, ImperialEventsTheWeddingCeremonyOfCrownPrinceAkihito,
    ImperialEventsTheWeddingCeremonyOfCrownPrinceNaruhito, LaborThanksgivingDay, MarineDay,
    MountainDay, NationalFoundationDay, NewYearsDay, RespectForTheAgedDay, ShowaDay, SportsDay,
    VernalEquinoxDay,
};
pub use resolve::{holiday_name, is_holiday, is_holiday_name, is_no_workday, substitute_holiday};
pub use ranges::{between, holidays, month_holidays, year_holidays};
