//! The statutory holiday rules: one rule per named holiday, each a
//! time-bounded predicate over a calendar date, evaluated in a fixed order
//! with first-match precedence. The year boundaries and one-off exception
//! dates encode the text of the statutes and their amendments literally.

use vstd::prelude::*;
use crate::date::{week_day, week_day_spec, Date};
use crate::equinox::{
    autumnal_equinox_day, autumnal_equinox_day_exec, vernal_equinox_day, vernal_equinox_day_exec,
};

verus! {

/// The named holidays that the rule set can report, in the order the rules
/// are evaluated.
#[derive(Clone, Copy, PartialEq, Eq, Structural, Debug)]
pub enum HolidayKind {
    NewYears,
    ComingOfAge,
    NationalFoundation,
    EmperorsBirthday,
    VernalEquinox,
    Greenery,
    Showa,
    ConstitutionMemorial,
    Childrens,
    Marine,
    Mountain,
    RespectForTheAged,
    AutumnalEquinox,
    HealthAndSports,
    Sports,
    Culture,
    LaborThanksgiving,
    WeddingCeremonyOfCrownPrinceAkihito,
    FuneralOfEmperorShowa,
    CeremonyOfTheEnthronementOfTheEmperor,
    WeddingCeremonyOfCrownPrinceNaruhito,
    DayOfTheEmperorsEnthronement,
    EnthronementCeremony,
}

/// Whether `d` falls on the `week`-th Monday of its month.
pub open spec fn on_nth_monday(d: Date, week: u32) -> bool {
    match week_day_spec(d, week, 1) {
        Some(x) => d.day == x.day,
        None => false,
    }
}

/// Executable form of [`on_nth_monday`].
fn on_nth_monday_exec(d: &Date, week: u32) -> (r: bool)
    requires
        d.wf(),
    ensures
        r == on_nth_monday(*d, week),
{
    match week_day(d, week, 1) {
        Some(x) => d.day == x.day,
        None => false,
    }
}

/// New Year's Day: January 1, every year.
pub open spec fn is_new_years_day(d: Date) -> bool {
    d.month == 1 && d.day == 1
}

/// Coming of Age Day: January 15 through 1999, the second Monday of
/// January from 2000 on.
pub open spec fn is_coming_of_age_day(d: Date) -> bool {
    ||| (d.year <= 1999 && d.month == 1 && d.day == 15)
    ||| (d.year >= 2000 && d.month == 1 && on_nth_monday(d, 2))
}

/// National Foundation Day: February 11, from 1967 on.
pub open spec fn is_national_foundation_day(d: Date) -> bool {
    d.year >= 1967 && d.month == 2 && d.day == 11
}

/// The Emperor's Birthday: April 29 from 1948 through 1988, December 23
/// from 1989 through 2018, February 23 from 2020 on (none in 2019).
pub open spec fn is_emperors_birthday(d: Date) -> bool {
    ||| (1948 <= d.year <= 1988 && d.month == 4 && d.day == 29)
    ||| (1989 <= d.year <= 2018 && d.month == 12 && d.day == 23)
    ||| (d.year >= 2020 && d.month == 2 && d.day == 23)
}

/// Vernal Equinox Day: the approximate equinox day of March.
pub open spec fn is_vernal_equinox_day(d: Date) -> bool {
    d.month == 3 && d.day == vernal_equinox_day(d.year as int)
}

/// Greenery Day: April 29 from 1989 through 2006, May 4 from 2007 on.
pub open spec fn is_greenery_day(d: Date) -> bool {
    ||| (1989 <= d.year <= 2006 && d.month == 4 && d.day == 29)
    ||| (d.year >= 2007 && d.month == 5 && d.day == 4)
}

/// Showa Day: April 29, from 2007 on.
pub open spec fn is_showa_day(d: Date) -> bool {
    d.year >= 2007 && d.month == 4 && d.day == 29
}

/// Constitution Memorial Day: May 3, every year.
pub open spec fn is_constitution_memorial_day(d: Date) -> bool {
    d.month == 5 && d.day == 3
}

/// Children's Day: May 5, every year.
pub open spec fn is_childrens_day(d: Date) -> bool {
    d.month == 5 && d.day == 5
}

/// Marine Day: July 20 from 1996 through 2002, the third Monday of July
/// from 2003 on, with the Olympic one-off dates July 23, 2020 and
/// July 22, 2021.
pub open spec fn is_marine_day(d: Date) -> bool {
    if d.year == 2020 {
        d.month == 7 && d.day == 23
    } else if d.year == 2021 {
        d.month == 7 && d.day == 22
    } else {
        ||| (1996 <= d.year <= 2002 && d.month == 7 && d.day == 20)
        ||| (d.year >= 2003 && d.month == 7 && on_nth_monday(d, 3))
    }
}

/// Mountain Day: August 11 from 2016 on, with the Olympic one-off dates
/// August 10, 2020 and August 8, 2021.
pub open spec fn is_mountain_day(d: Date) -> bool {
    if d.year == 2020 {
        d.month == 8 && d.day == 10
    } else if d.year == 2021 {
        d.month == 8 && d.day == 8
    } else {
        d.year >= 2016 && d.month == 8 && d.day == 11
    }
}

/// Respect for the Aged Day: September 15 from 1966 through 2002, the
/// third Monday of September from 2003 on.
pub open spec fn is_respect_for_the_aged_day(d: Date) -> bool {
    ||| (1966 <= d.year <= 2002 && d.month == 9 && d.day == 15)
    ||| (d.year >= 2003 && d.month == 9 && on_nth_monday(d, 3))
}

/// Autumnal Equinox Day: the approximate equinox day of September.
pub open spec fn is_autumnal_equinox_day(d: Date) -> bool {
    d.month == 9 && d.day == autumnal_equinox_day(d.year as int)
}

/// Health and Sports Day: October 10 from 1966 through 1999, the second
/// Monday of October from 2000 through 2019.
pub open spec fn is_health_and_sports_day(d: Date) -> bool {
    ||| (1966 <= d.year <= 1999 && d.month == 10 && d.day == 10)
    ||| (2000 <= d.year <= 2019 && d.month == 10 && on_nth_monday(d, 2))
}

/// Sports Day: the second Monday of October from 2020 on, with the Olympic
/// one-off dates July 24, 2020 and July 23, 2021.
pub open spec fn is_sports_day(d: Date) -> bool {
    if d.year == 2020 {
        d.month == 7 && d.day == 24
    } else if d.year == 2021 {
        d.month == 7 && d.day == 23
    } else {
        d.year >= 2020 && d.month == 10 && on_nth_monday(d, 2)
    }
}

/// Culture Day: November 3, every year.
pub open spec fn is_culture_day(d: Date) -> bool {
    d.month == 11 && d.day == 3
}

/// Labor Thanksgiving Day: November 23, every year.
pub open spec fn is_labor_thanksgiving_day(d: Date) -> bool {
    d.month == 11 && d.day == 23
}

/// The wedding ceremony of Crown Prince Akihito: April 10, 1959 only.
pub open spec fn is_wedding_ceremony_of_crown_prince_akihito(d: Date) -> bool {
    d.year == 1959 && d.month == 4 && d.day == 10
}

/// The funeral of Emperor Showa: February 24, 1989 only.
pub open spec fn is_funeral_of_emperor_showa(d: Date) -> bool {
    d.year == 1989 && d.month == 2 && d.day == 24
}

/// The ceremony of the enthronement of the Emperor: November 12, 1990 only.
pub open spec fn is_ceremony_of_the_enthronement_of_the_emperor(d: Date) -> bool {
    d.year == 1990 && d.month == 11 && d.day == 12
}

/// The wedding ceremony of Crown Prince Naruhito: June 9, 1993 only.
pub open spec fn is_wedding_ceremony_of_crown_prince_naruhito(d: Date) -> bool {
    d.year == 1993 && d.month == 6 && d.day == 9
}

/// The day of the Emperor's enthronement: May 1, 2019 only.
pub open spec fn is_day_of_the_emperors_enthronement(d: Date) -> bool {
    d.year == 2019 && d.month == 5 && d.day == 1
}

/// The enthronement ceremony: October 22, 2019 only.
pub open spec fn is_enthronement_ceremony(d: Date) -> bool {
    d.year == 2019 && d.month == 10 && d.day == 22
}

/// The first rule, in evaluation order, that reports `d` as a holiday.
pub open spec fn first_kind(d: Date) -> Option<HolidayKind> {
    if is_new_years_day(d) {
        Some(HolidayKind::NewYears)
    } else if is_coming_of_age_day(d) {
        Some(HolidayKind::ComingOfAge)
    } else if is_national_foundation_day(d) {
        Some(HolidayKind::NationalFoundation)
    } else if is_emperors_birthday(d) {
        Some(HolidayKind::EmperorsBirthday)
    } else if is_vernal_equinox_day(d) {
        Some(HolidayKind::VernalEquinox)
    } else if is_greenery_day(d) {
        Some(HolidayKind::Greenery)
    } else if is_showa_day(d) {
        Some(HolidayKind::Showa)
    } else if is_constitution_memorial_day(d) {
        Some(HolidayKind::ConstitutionMemorial)
    } else if is_childrens_day(d) {
        Some(HolidayKind::Childrens)
    } else if is_marine_day(d) {
        Some(HolidayKind::Marine)
    } else if is_mountain_day(d) {
        Some(HolidayKind::Mountain)
    } else if is_respect_for_the_aged_day(d) {
        Some(HolidayKind::RespectForTheAged)
    } else if is_autumnal_equinox_day(d) {
        Some(HolidayKind::AutumnalEquinox)
    } else if is_health_and_sports_day(d) {
        Some(HolidayKind::HealthAndSports)
    } else if is_sports_day(d) {
        Some(HolidayKind::Sports)
    } else if is_culture_day(d) {
        Some(HolidayKind::Culture)
    } else if is_labor_thanksgiving_day(d) {
        Some(HolidayKind::LaborThanksgiving)
    } else if is_wedding_ceremony_of_crown_prince_akihito(d) {
        Some(HolidayKind::WeddingCeremonyOfCrownPrinceAkihito)
    } else if is_funeral_of_emperor_showa(d) {
        Some(HolidayKind::FuneralOfEmperorShowa)
    } else if is_ceremony_of_the_enthronement_of_the_emperor(d) {
        Some(HolidayKind::CeremonyOfTheEnthronementOfTheEmperor)
    } else if is_wedding_ceremony_of_crown_prince_naruhito(d) {
        Some(HolidayKind::WeddingCeremonyOfCrownPrinceNaruhito)
    } else if is_day_of_the_emperors_enthronement(d) {
        Some(HolidayKind::DayOfTheEmperorsEnthronement)
    } else if is_enthronement_ceremony(d) {
        Some(HolidayKind::EnthronementCeremony)
    } else {
        None
    }
}

/// The name of holiday `k`.
pub open spec fn kind_name(k: HolidayKind) -> Seq<char> {
    match k {
        HolidayKind::NewYears => "元日"@,
        HolidayKind::ComingOfAge => "成人の日"@,
        HolidayKind::NationalFoundation => "建国記念の日"@,
        HolidayKind::EmperorsBirthday => "天皇誕生日"@,
        HolidayKind::VernalEquinox => "春分の日"@,
        HolidayKind::Greenery => "みどりの日"@,
        HolidayKind::Showa => "昭和の日"@,
        HolidayKind::ConstitutionMemorial => "憲法記念日"@,
        HolidayKind::Childrens => "こどもの日"@,
        HolidayKind::Marine => "海の日"@,
        HolidayKind::Mountain => "山の日"@,
        HolidayKind::RespectForTheAged => "敬老の日"@,
        HolidayKind::AutumnalEquinox => "秋分の日"@,
        HolidayKind::HealthAndSports => "体育の日"@,
        HolidayKind::Sports => "スポーツの日"@,
        HolidayKind::Culture => "文化の日"@,
        HolidayKind::LaborThanksgiving => "勤労感謝の日"@,
        HolidayKind::WeddingCeremonyOfCrownPrinceAkihito => "皇太子・明仁親王の結婚の儀"@,
        HolidayKind::FuneralOfEmperorShowa => "昭和天皇の大喪の礼"@,
        HolidayKind::CeremonyOfTheEnthronementOfTheEmperor => "即位の礼正殿の儀"@,
        HolidayKind::WeddingCeremonyOfCrownPrinceNaruhito => "皇太子・皇太子徳仁親王の結婚の儀"@,
        HolidayKind::DayOfTheEmperorsEnthronement => "天皇の即位の日"@,
        HolidayKind::EnthronementCeremony => "即位礼正殿の儀"@,
    }
}

/// New Year's Day (元日).
pub struct NewYearsDay;

impl NewYearsDay {
    /// Whether `date` is this holiday.
    pub fn is_holiday(&self, date: &Date) -> (r: bool)
        requires
            date.wf(),
        ensures
            r == is_new_years_day(*date),
    {
        date.month() == 1 && date.day() == 1
    }

    /// The holiday's name.
    pub fn name(&self) -> (r: String)
        ensures
            r@ == kind_name(HolidayKind::NewYears),
    {
        "元日".to_owned()
    }
}

/// Coming of Age Day (成人の日).
pub struct ComingOfAgeDay;

impl ComingOfAgeDay {
    /// Whether `date` is this holiday.
    pub fn is_holiday(&self, date: &Date) -> (r: bool)
        requires
            date.wf(),
        ensures
            r == is_coming_of_age_day(*date),
    {
        if date.year() <= 1999 && date.month() == 1 && date.day() == 15 {
            return true;
        }
        if date.year() >= 2000 && date.month() == 1 && on_nth_monday_exec(date, 2) {
            return true;
        }
        false
    }

    /// The holiday's name.
    pub fn name(&self) -> (r: String)
        ensures
            r@ == kind_name(HolidayKind::ComingOfAge),
    {
        "成人の日".to_owned()
    }
}

/// National Foundation Day (建国記念の日).
pub struct NationalFoundationDay;

impl NationalFoundationDay {
    /// Whether `date` is this holiday.
    pub fn is_holiday(&self, date: &Date) -> (r: bool)
        requires
            date.wf(),
        ensures
            r == is_national_foundation_day(*date),
    {
        date.year() >= 1967 && date.month() == 2 && date.day() == 11
    }

    /// The holiday's name.
    pub fn name(&self) -> (r: String)
        ensures
            r@ == kind_name(HolidayKind::NationalFoundation),
    {
        "建国記念の日".to_owned()
    }
}

/// The Emperor's Birthday (天皇誕生日).
pub struct EmperorsBirthday;

impl EmperorsBirthday {
    /// Whether `date` is this holiday.
    pub fn is_holiday(&self, date: &Date) -> (r: bool)
        requires
            date.wf(),
        ensures
            r == is_emperors_birthday(*date),
    {
        if date.year() >= 1948 && date.year() <= 1988 && date.month() == 4 && date.day() == 29 {
            return true;
        }
        if date.year() >= 1989 && date.year() <= 2018 && date.month() == 12 && date.day() == 23 {
            return true;
        }
        if date.year() >= 2020 && date.month() == 2 && date.day() == 23 {
            return true;
        }
        false
    }

    /// The holiday's name.
    pub fn name(&self) -> (r: String)
        ensures
            r@ == kind_name(HolidayKind::EmperorsBirthday),
    {
        "天皇誕生日".to_owned()
    }
}

/// Vernal Equinox Day (春分の日).
pub struct VernalEquinoxDay;

impl VernalEquinoxDay {
    /// Whether `date` is this holiday.
    pub fn is_holiday(&self, date: &Date) -> (r: bool)
        requires
            date.wf(),
        ensures
            r == is_vernal_equinox_day(*date),
    {
        date.month() == 3 && date.day() == vernal_equinox_day_exec(date.year())
    }

    /// The holiday's name.
    pub fn name(&self) -> (r: String)
        ensures
            r@ == kind_name(HolidayKind::VernalEquinox),
    {
        "春分の日".to_owned()
    }
}

/// Greenery Day (みどりの日).
pub struct GreeneryDay;

impl GreeneryDay {
    /// Whether `date` is this holiday.
    pub fn is_holiday(&self, date: &Date) -> (r: bool)
        requires
            date.wf(),
        ensures
            r == is_greenery_day(*date),
    {
        if date.year() >= 1989 && date.year() <= 2006 && date.month() == 4 && date.day() == 29 {
            return true;
        }
        if date.year() >= 2007 && date.month() == 5 && date.day() == 4 {
            return true;
        }
        false
    }

    /// The holiday's name.
    pub fn name(&self) -> (r: String)
        ensures
            r@ == kind_name(HolidayKind::Greenery),
    {
        "みどりの日".to_owned()
    }
}

/// Showa Day (昭和の日).
pub struct ShowaDay;

impl ShowaDay {
    /// Whether `date` is this holiday.
    pub fn is_holiday(&self, date: &Date) -> (r: bool)
        requires
            date.wf(),
        ensures
            r == is_showa_day(*date),
    {
        date.year() >= 2007 && date.month() == 4 && date.day() == 29
    }

    /// The holiday's name.
    pub fn name(&self) -> (r: String)
        ensures
            r@ == kind_name(HolidayKind::Showa),
    {
        "昭和の日".to_owned()
    }
}

/// Constitution Memorial Day (憲法記念日).
pub struct ConstitutionMemorialDay;

impl ConstitutionMemorialDay {
    /// Whether `date` is this holiday.
    pub fn is_holiday(&self, date: &Date) -> (r: bool)
        requires
            date.wf(),
        ensures
            r == is_constitution_memorial_day(*date),
    {
        date.month() == 5 && date.day() == 3
    }

    /// The holiday's name.
    pub fn name(&self) -> (r: String)
        ensures
            r@ == kind_name(HolidayKind::ConstitutionMemorial),
    {
        "憲法記念日".to_owned()
    }
}

/// Children's Day (こどもの日).
pub struct ChildrensDay;

impl ChildrensDay {
    /// Whether `date` is this holiday.
    pub fn is_holiday(&self, date: &Date) -> (r: bool)
        requires
            date.wf(),
        ensures
            r == is_childrens_day(*date),
    {
        date.month() == 5 && date.day() == 5
    }

    /// The holiday's name.
    pub fn name(&self) -> (r: String)
        ensures
            r@ == kind_name(HolidayKind::Childrens),
    {
        "こどもの日".to_owned()
    }
}

/// Marine Day (海の日).
pub struct MarineDay;

impl MarineDay {
    /// Whether `date` is this holiday.
    pub fn is_holiday(&self, date: &Date) -> (r: bool)
        requires
            date.wf(),
        ensures
            r == is_marine_day(*date),
    {
        if date.year() == 2020 {
            return date.month() == 7 && date.day() == 23;
        }
        if date.year() == 2021 {
            return date.month() == 7 && date.day() == 22;
        }
        if date.year() >= 1996 && date.year() <= 2002 && date.month() == 7 && date.day() == 20 {
            return true;
        }
        if date.year() >= 2003 && date.month() == 7 && on_nth_monday_exec(date, 3) {
            return true;
        }
        false
    }

    /// The holiday's name.
    pub fn name(&self) -> (r: String)
        ensures
            r@ == kind_name(HolidayKind::Marine),
    {
        "海の日".to_owned()
    }
}

/// Mountain Day (山の日).
pub struct MountainDay;

impl MountainDay {
    /// Whether `date` is this holiday.
    pub fn is_holiday(&self, date: &Date) -> (r: bool)
        requires
            date.wf(),
        ensures
            r == is_mountain_day(*date),
    {
        if date.year() == 2020 {
            return date.month() == 8 && date.day() == 10;
        }
        if date.year() == 2021 {
            return date.month() == 8 && date.day() == 8;
        }
        date.year() >= 2016 && date.month() == 8 && date.day() == 11
    }

    /// The holiday's name.
    pub fn name(&self) -> (r: String)
        ensures
            r@ == kind_name(HolidayKind::Mountain),
    {
        "山の日".to_owned()
    }
}

/// Respect for the Aged Day (敬老の日).
pub struct RespectForTheAgedDay;

impl RespectForTheAgedDay {
    /// Whether `date` is this holiday.
    pub fn is_holiday(&self, date: &Date) -> (r: bool)
        requires
            date.wf(),
        ensures
            r == is_respect_for_the_aged_day(*date),
    {
        if date.year() >= 1966 && date.year() <= 2002 && date.month() == 9 && date.day() == 15 {
            return true;
        }
        if date.year() >= 2003 && date.month() == 9 && on_nth_monday_exec(date, 3) {
            return true;
        }
        false
    }

    /// The holiday's name.
    pub fn name(&self) -> (r: String)
        ensures
            r@ == kind_name(HolidayKind::RespectForTheAged),
    {
        "敬老の日".to_owned()
    }
}

/// Autumnal Equinox Day (秋分の日).
pub struct AutumnalEquinoxDay;

impl AutumnalEquinoxDay {
    /// Whether `date` is this holiday.
    pub fn is_holiday(&self, date: &Date) -> (r: bool)
        requires
            date.wf(),
        ensures
            r == is_autumnal_equinox_day(*date),
    {
        date.month() == 9 && date.day() == autumnal_equinox_day_exec(date.year())
    }

    /// The holiday's name.
    pub fn name(&self) -> (r: String)
        ensures
            r@ == kind_name(HolidayKind::AutumnalEquinox),
    {
        "秋分の日".to_owned()
    }
}

/// Health and Sports Day (体育の日).
pub struct HealthAndSportsDay;

impl HealthAndSportsDay {
    /// Whether `date` is this holiday.
    pub fn is_holiday(&self, date: &Date) -> (r: bool)
        requires
            date.wf(),
        ensures
            r == is_health_and_sports_day(*date),
    {
        if date.year() >= 1966 && date.year() <= 1999 && date.month() == 10 && date.day() == 10 {
            return true;
        }
        if date.year() >= 2000 && date.year() <= 2019 && date.month() == 10 && on_nth_monday_exec(
            date,
            2,
        ) {
            return true;
        }
        false
    }

    /// The holiday's name.
    pub fn name(&self) -> (r: String)
        ensures
            r@ == kind_name(HolidayKind::HealthAndSports),
    {
        "体育の日".to_owned()
    }
}

/// Sports Day (スポーツの日).
pub struct SportsDay;

impl SportsDay {
    /// Whether `date` is this holiday.
    pub fn is_holiday(&self, date: &Date) -> (r: bool)
        requires
            date.wf(),
        ensures
            r == is_sports_day(*date),
    {
        if date.year() == 2020 {
            return date.month() == 7 && date.day() == 24;
        }
        if date.year() == 2021 {
            return date.month() == 7 && date.day() == 23;
        }
        date.year() >= 2020 && date.month() == 10 && on_nth_monday_exec(date, 2)
    }

    /// The holiday's name.
    pub fn name(&self) -> (r: String)
        ensures
            r@ == kind_name(HolidayKind::Sports),
    {
        "スポーツの日".to_owned()
    }
}

/// Culture Day (文化の日).
pub struct CultureDay;

impl CultureDay {
    /// Whether `date` is this holiday.
    pub fn is_holiday(&self, date: &Date) -> (r: bool)
        requires
            date.wf(),
        ensures
            r == is_culture_day(*date),
    {
        date.month() == 11 && date.day() == 3
    }

    /// The holiday's name.
    pub fn name(&self) -> (r: String)
        ensures
            r@ == kind_name(HolidayKind::Culture),
    {
        "文化の日".to_owned()
    }
}

/// Labor Thanksgiving Day (勤労感謝の日).
pub struct LaborThanksgivingDay;

impl LaborThanksgivingDay {
    /// Whether `date` is this holiday.
    pub fn is_holiday(&self, date: &Date) -> (r: bool)
        requires
            date.wf(),
        ensures
            r == is_labor_thanksgiving_day(*date),
    {
        date.month() == 11 && date.day() == 23
    }

    /// The holiday's name.
    pub fn name(&self) -> (r: String)
        ensures
            r@ == kind_name(HolidayKind::LaborThanksgiving),
    {
        "勤労感謝の日".to_owned()
    }
}

/// The wedding ceremony of Crown Prince Akihito (皇太子・明仁親王の結婚の儀).
pub struct ImperialEventsTheWeddingCeremonyOfCrownPrinceAkihito;

impl ImperialEventsTheWeddingCeremonyOfCrownPrinceAkihito {
    /// Whether `date` is this holiday.
    pub fn is_holiday(&self, date: &Date) -> (r: bool)
        requires
            date.wf(),
        ensures
            r == is_wedding_ceremony_of_crown_prince_akihito(*date),
    {
        date.year() == 1959 && date.month() == 4 && date.day() == 10
    }

    /// The holiday's name.
    pub fn name(&self) -> (r: String)
        ensures
            r@ == kind_name(HolidayKind::WeddingCeremonyOfCrownPrinceAkihito),
    {
        "皇太子・明仁親王の結婚の儀".to_owned()
    }
}

/// The funeral of Emperor Showa (昭和天皇の大喪の礼).
pub struct ImperialEventsTheFuneralOfEmperorShowa;

impl ImperialEventsTheFuneralOfEmperorShowa {
    /// Whether `date` is this holiday.
    pub fn is_holiday(&self, date: &Date) -> (r: bool)
        requires
            date.wf(),
        ensures
            r == is_funeral_of_emperor_showa(*date),
    {
        date.year() == 1989 && date.month() == 2 && date.day() == 24
    }

    /// The holiday's name.
    pub fn name(&self) -> (r: String)
        ensures
            r@ == kind_name(HolidayKind::FuneralOfEmperorShowa),
    {
        "昭和天皇の大喪の礼".to_owned()
    }
}

/// The ceremony of the enthronement of the Emperor (即位の礼正殿の儀).
pub struct ImperialEventsTheCeremonyOfTheEnthronementOfTheEmperor;

impl ImperialEventsTheCeremonyOfTheEnthronementOfTheEmperor {
    /// Whether `date` is this holiday.
    pub fn is_holiday(&self, date: &Date) -> (r: bool)
        requires
            date.wf(),
        ensures
            r == is_ceremony_of_the_enthronement_of_the_emperor(*date),
    {
        date.year() == 1990 && date.month() == 11 && date.day() == 12
    }

    /// The holiday's name.
    pub fn name(&self) -> (r: String)
        ensures
            r@ == kind_name(HolidayKind::CeremonyOfTheEnthronementOfTheEmperor),
    {
        "即位の礼正殿の儀".to_owned()
    }
}

/// The wedding ceremony of Crown Prince Naruhito (皇太子・皇太子徳仁親王の結婚の儀).
pub struct ImperialEventsTheWeddingCeremonyOfCrownPrinceNaruhito;

impl ImperialEventsTheWeddingCeremonyOfCrownPrinceNaruhito {
    /// Whether `date` is this holiday.
    pub fn is_holiday(&self, date: &Date) -> (r: bool)
        requires
            date.wf(),
        ensures
            r == is_wedding_ceremony_of_crown_prince_naruhito(*date),
    {
        date.year() == 1993 && date.month() == 6 && date.day() == 9
    }

    /// The holiday's name.
    pub fn name(&self) -> (r: String)
        ensures
            r@ == kind_name(HolidayKind::WeddingCeremonyOfCrownPrinceNaruhito),
    {
        "皇太子・皇太子徳仁親王の結婚の儀".to_owned()
    }
}

/// The day of the Emperor's enthronement (天皇の即位の日).
pub struct ImperialEventsTheDayOfTheEmperorsEnthronement;

impl ImperialEventsTheDayOfTheEmperorsEnthronement {
    /// Whether `date` is this holiday.
    pub fn is_holiday(&self, date: &Date) -> (r: bool)
        requires
            date.wf(),
        ensures
            r == is_day_of_the_emperors_enthronement(*date),
    {
        date.year() == 2019 && date.month() == 5 && date.day() == 1
    }

    /// The holiday's name.
    pub fn name(&self) -> (r: String)
        ensures
            r@ == kind_name(HolidayKind::DayOfTheEmperorsEnthronement),
    {
        "天皇の即位の日".to_owned()
    }
}

/// The enthronement ceremony (即位礼正殿の儀).
pub struct ImperialEventsTheEnthronementCeremony;

impl ImperialEventsTheEnthronementCeremony {
    /// Whether `date` is this holiday.
    pub fn is_holiday(&self, date: &Date) -> (r: bool)
        requires
            date.wf(),
        ensures
            r == is_enthronement_ceremony(*date),
    {
        date.year() == 2019 && date.month() == 10 && date.day() == 22
    }

    /// The holiday's name.
    pub fn name(&self) -> (r: String)
        ensures
            r@ == kind_name(HolidayKind::EnthronementCeremony),
    {
        "即位礼正殿の儀".to_owned()
    }
}

/// Runs the whole rule set against `date` in evaluation order and returns
/// the first rule that matches.
pub fn first_match(date: &Date) -> (r: Option<HolidayKind>)
    requires
        date.wf(),
    ensures
        r == first_kind(*date),
{
    if (NewYearsDay).is_holiday(date) {
        return Some(HolidayKind::NewYears);
    }
    if (ComingOfAgeDay).is_holiday(date) {
        return Some(HolidayKind::ComingOfAge);
    }
    if (NationalFoundationDay).is_holiday(date) {
        return Some(HolidayKind::NationalFoundation);
    }
    if (EmperorsBirthday).is_holiday(date) {
        return Some(HolidayKind::EmperorsBirthday);
    }
    if (VernalEquinoxDay).is_holiday(date) {
        return Some(HolidayKind::VernalEquinox);
    }
    if (GreeneryDay).is_holiday(date) {
        return Some(HolidayKind::Greenery);
    }
    if (ShowaDay).is_holiday(date) {
        return Some(HolidayKind::Showa);
    }
    if (ConstitutionMemorialDay).is_holiday(date) {
        return Some(HolidayKind::ConstitutionMemorial);
    }
    if (ChildrensDay).is_holiday(date) {
        return Some(HolidayKind::Childrens);
    }
    if (MarineDay).is_holiday(date) {
        return Some(HolidayKind::Marine);
    }
    if (MountainDay).is_holiday(date) {
        return Some(HolidayKind::Mountain);
    }
    if (RespectForTheAgedDay).is_holiday(date) {
        return Some(HolidayKind::RespectForTheAged);
    }
    if (AutumnalEquinoxDay).is_holiday(date) {
        return Some(HolidayKind::AutumnalEquinox);
    }
    if (HealthAndSportsDay).is_holiday(date) {
        return Some(HolidayKind::HealthAndSports);
    }
    if (SportsDay).is_holiday(date) {
        return Some(HolidayKind::Sports);
    }
    if (CultureDay).is_holiday(date) {
        return Some(HolidayKind::Culture);
    }
    if (LaborThanksgivingDay).is_holiday(date) {
        return Some(HolidayKind::LaborThanksgiving);
    }
    if (ImperialEventsTheWeddingCeremonyOfCrownPrinceAkihito).is_holiday(date) {
        return Some(HolidayKind::WeddingCeremonyOfCrownPrinceAkihito);
    }
    if (ImperialEventsTheFuneralOfEmperorShowa).is_holiday(date) {
        return Some(HolidayKind::FuneralOfEmperorShowa);
    }
    if (ImperialEventsTheCeremonyOfTheEnthronementOfTheEmperor).is_holiday(date) {
        return Some(HolidayKind::CeremonyOfTheEnthronementOfTheEmperor);
    }
    if (ImperialEventsTheWeddingCeremonyOfCrownPrinceNaruhito).is_holiday(date) {
        return Some(HolidayKind::WeddingCeremonyOfCrownPrinceNaruhito);
    }
    if (ImperialEventsTheDayOfTheEmperorsEnthronement).is_holiday(date) {
        return Some(HolidayKind::DayOfTheEmperorsEnthronement);
    }
    if (ImperialEventsTheEnthronementCeremony).is_holiday(date) {
        return Some(HolidayKind::EnthronementCeremony);
    }
    None
}

/// The name of holiday `k`, as a string value.
pub fn kind_name_string(k: HolidayKind) -> (r: String)
    ensures
        r@ == kind_name(k),
{
    match k {
        HolidayKind::NewYears => (NewYearsDay).name(),
        HolidayKind::ComingOfAge => (ComingOfAgeDay).name(),
        HolidayKind::NationalFoundation => (NationalFoundationDay).name(),
        HolidayKind::EmperorsBirthday => (EmperorsBirthday).name(),
        HolidayKind::VernalEquinox => (VernalEquinoxDay).name(),
        HolidayKind::Greenery => (GreeneryDay).name(),
        HolidayKind::Showa => (ShowaDay).name(),
        HolidayKind::ConstitutionMemorial => (ConstitutionMemorialDay).name(),
        HolidayKind::Childrens => (ChildrensDay).name(),
        HolidayKind::Marine => (MarineDay).name(),
        HolidayKind::Mountain => (MountainDay).name(),
        HolidayKind::RespectForTheAged => (RespectForTheAgedDay).name(),
        HolidayKind::AutumnalEquinox => (AutumnalEquinoxDay).name(),
        HolidayKind::HealthAndSports => (HealthAndSportsDay).name(),
        HolidayKind::Sports => (SportsDay).name(),
        HolidayKind::Culture => (CultureDay).name(),
        HolidayKind::LaborThanksgiving => (LaborThanksgivingDay).name(),
        HolidayKind::WeddingCeremonyOfCrownPrinceAkihito => (
        ImperialEventsTheWeddingCeremonyOfCrownPrinceAkihito).name(),
        HolidayKind::FuneralOfEmperorShowa => (ImperialEventsTheFuneralOfEmperorShowa).name(),
        HolidayKind::CeremonyOfTheEnthronementOfTheEmperor => (
        ImperialEventsTheCeremonyOfTheEnthronementOfTheEmperor).name(),
        HolidayKind::WeddingCeremonyOfCrownPrinceNaruhito => (
        ImperialEventsTheWeddingCeremonyOfCrownPrinceNaruhito).name(),
        HolidayKind::DayOfTheEmperorsEnthronement => (
        ImperialEventsTheDayOfTheEmperorsEnthronement).name(),
        HolidayKind::EnthronementCeremony => (ImperialEventsTheEnthronementCeremony).name(),
    }
}

} // verus!
