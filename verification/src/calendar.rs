//! The season shown when the configuration leaves it to the calendar.

use vstd::prelude::*;
use chrono::Datelike;
use crate::config::{AppConfig, Hemisphere, Season};

verus! {

/// The four astronomical quarters of the year, by month and day:
/// 0 from December 21 to March 20, 1 from March 21 to June 20,
/// 2 from June 21 to September 20, and 3 for the rest of the year.
pub open spec fn quarter_of(month: u32, day: u32) -> int {
    if (month == 12 && 21 <= day <= 31) || month == 1 || month == 2 || (month == 3 && 1 <= day <= 20) {
        0
    } else if (month == 3 && 21 <= day <= 31) || month == 4 || month == 5 || (month == 6 && 1 <= day
        <= 20) {
        1
    } else if (month == 6 && 21 <= day <= 31) || month == 7 || month == 8 || (month == 9 && 1 <= day
        <= 20) {
        2
    } else {
        3
    }
}

/// The season of a date in the northern hemisphere.
pub open spec fn northern_season(month: u32, day: u32) -> Season {
    let q = quarter_of(month, day);
    if q == 0 {
        Season::Winter
    } else if q == 1 {
        Season::Spring
    } else if q == 2 {
        Season::Summer
    } else {
        Season::Autumn
    }
}

/// The season of a date in the southern hemisphere.
pub open spec fn southern_season(month: u32, day: u32) -> Season {
    let q = quarter_of(month, day);
    if q == 0 {
        Season::Summer
    } else if q == 1 {
        Season::Autumn
    } else if q == 2 {
        Season::Winter
    } else {
        Season::Spring
    }
}

/// The season half a year away.
pub open spec fn opposite_season(s: Season) -> Season {
    match s {
        Season::Spring => Season::Autumn,
        Season::Summer => Season::Winter,
        Season::Autumn => Season::Spring,
        Season::Winter => Season::Summer,
        Season::Auto => Season::Auto,
    }
}

/// The season that the configuration shows on a date: the configured one,
/// or, for `Auto`, the calendar's season in the configured hemisphere,
/// where an `Auto` hemisphere is the detected one.
pub open spec fn effective_season(
    configured: Season,
    hemisphere: Hemisphere,
    detected_southern: bool,
    month: u32,
    day: u32,
) -> Season {
    if configured != Season::Auto {
        configured
    } else {
        let south = match hemisphere {
            Hemisphere::South => true,
            Hemisphere::North => false,
            Hemisphere::Auto => detected_southern,
        };
        if south {
            southern_season(month, day)
        } else {
            northern_season(month, day)
        }
    }
}

/// The calendar quarter of a date.
fn quarter(month: u32, day: u32) -> (res: u8)
    ensures
        res as int == quarter_of(month, day),
{
    if (month == 12 && 21 <= day && day <= 31) || month == 1 || month == 2 || (month == 3 && 1 <= day
        && day <= 20) {
        0
    } else if (month == 3 && 21 <= day && day <= 31) || month == 4 || month == 5 || (month == 6 && 1
        <= day && day <= 20) {
        1
    } else if (month == 6 && 21 <= day && day <= 31) || month == 7 || month == 8 || (month == 9 && 1
        <= day && day <= 20) {
        2
    } else {
        3
    }
}

/// The season shown on a given date.
pub fn season_on(
    configured: Season,
    hemisphere: Hemisphere,
    detected_southern: bool,
    month: u32,
    day: u32,
) -> (res: Season)
    ensures
        res == effective_season(configured, hemisphere, detected_southern, month, day),
{
    if configured != Season::Auto {
        return configured;
    }
    let south = match hemisphere {
        Hemisphere::South => true,
        Hemisphere::North => false,
        Hemisphere::Auto => detected_southern,
    };
    let q = quarter(month, day);
    if south {
        if q == 0 {
            Season::Summer
        } else if q == 1 {
            Season::Autumn
        } else if q == 2 {
            Season::Winter
        } else {
            Season::Spring
        }
    } else {
        if q == 0 {
            Season::Winter
        } else if q == 1 {
            Season::Spring
        } else if q == 2 {
            Season::Summer
        } else {
            Season::Autumn
        }
    }
}

/// Today's month and day in the local time zone, through
/// `chrono::Local::now` and `Datelike::month` / `Datelike::day`. chrono
/// documents the month as 1 to 12 and the day as 1 to 31; which date it is
/// depends on the clock and the time zone, so nothing more is stated.
#[verifier::external_body]
fn local_month_day() -> (res: (u32, u32))
    ensures
        1 <= res.0 <= 12,
        1 <= res.1 <= 31,
{
    let now = chrono::Local::now();
    (now.month(), now.day())
}

/// The season the scene shows today: the configured season, or for
/// `Auto` the season of today's date in the configured hemisphere (an
/// `Auto` hemisphere taking `detected_southern`).
pub fn get_effective_season(config: &AppConfig, detected_southern: bool) -> (res: Season)
    ensures
        config.season != Season::Auto ==> res == config.season,
        res != Season::Auto,
        config.season == Season::Auto ==> exists|month: u32, day: u32|
            1 <= month <= 12 && 1 <= day <= 31 && res == #[trigger] effective_season(
                config.season,
                config.hemisphere,
                detected_southern,
                month,
                day,
            ),
{
    if config.season != Season::Auto {
        return config.season;
    }
    let (month, day) = local_month_day();
    season_on(config.season, config.hemisphere, detected_southern, month, day)
}

/// Whether the season shown depends on where the machine is: only when
/// both the season and the hemisphere are left to `Auto`.
pub fn needs_hemisphere_detection(config: &AppConfig) -> (res: bool)
    ensures
        res == (config.season == Season::Auto && config.hemisphere == Hemisphere::Auto),
{
    config.season == Season::Auto && config.hemisphere == Hemisphere::Auto
}

/// When no detection is needed, the detected hemisphere changes nothing:
/// every date gives the same season whichever side it reports.
pub proof fn lemma_detection_unneeded(
    configured: Season,
    hemisphere: Hemisphere,
    south: bool,
    north: bool,
    month: u32,
    day: u32,
)
    requires
        !(configured == Season::Auto && hemisphere == Hemisphere::Auto),
    ensures
        effective_season(configured, hemisphere, south, month, day) == effective_season(
            configured,
            hemisphere,
            north,
            month,
            day,
        ),
{
}

/// The calendar of the seasons, by date: in the northern hemisphere winter
/// from December 21 to March 20, spring from March 21 to June 20, summer
/// from June 21 to September 20 and autumn from September 21 to December
/// 20; the southern hemisphere has the season half a year away.
pub proof fn lemma_season_calendar(month: u32, day: u32, detected_southern: bool)
    ensures
        ((month == 12 && 21 <= day <= 31) || month == 1 || month == 2 || (month == 3 && 1 <= day <= 20))
            ==> effective_season(Season::Auto, Hemisphere::North, detected_southern, month, day)
            == Season::Winter && effective_season(
            Season::Auto,
            Hemisphere::South,
            detected_southern,
            month,
            day,
        ) == Season::Summer,
        ((month == 3 && 21 <= day <= 31) || month == 4 || month == 5 || (month == 6 && 1 <= day <= 20))
            ==> effective_season(Season::Auto, Hemisphere::North, detected_southern, month, day)
            == Season::Spring && effective_season(
            Season::Auto,
            Hemisphere::South,
            detected_southern,
            month,
            day,
        ) == Season::Autumn,
        ((month == 6 && 21 <= day <= 31) || month == 7 || month == 8 || (month == 9 && 1 <= day <= 20))
            ==> effective_season(Season::Auto, Hemisphere::North, detected_southern, month, day)
            == Season::Summer && effective_season(
            Season::Auto,
            Hemisphere::South,
            detected_southern,
            month,
            day,
        ) == Season::Winter,
        ((month == 9 && 21 <= day <= 31) || month == 10 || month == 11 || (month == 12 && 1 <= day
            <= 20)) ==> effective_season(Season::Auto, Hemisphere::North, detected_southern, month, day)
            == Season::Autumn && effective_season(
            Season::Auto,
            Hemisphere::South,
            detected_southern,
            month,
            day,
        ) == Season::Spring,
{
}

/// Seasons change only on the 21st: within a month, the day after any day
/// other than the 20th has the same season, in either hemisphere.
pub proof fn lemma_season_changes_on_the_21st(
    hemisphere: Hemisphere,
    detected_southern: bool,
    month: u32,
    day: u32,
)
    requires
        1 <= month <= 12,
        1 <= day < 31,
        day != 20,
    ensures
        effective_season(Season::Auto, hemisphere, detected_southern, month, day) == effective_season(
            Season::Auto,
            hemisphere,
            detected_southern,
            month,
            (day + 1) as u32,
        ),
{
}

/// Each of the four seasons is shown on some date in each hemisphere, and
/// `Auto` never is.
pub proof fn lemma_every_season_comes(hemisphere: Hemisphere, detected_southern: bool, month: u32, day: u32)
    ensures
        effective_season(Season::Auto, hemisphere, detected_southern, month, day) != Season::Auto,
        effective_season(Season::Auto, hemisphere, detected_southern, 1, 1) != effective_season(
            Season::Auto,
            hemisphere,
            detected_southern,
            7,
            1,
        ),
        effective_season(Season::Auto, hemisphere, detected_southern, 4, 1) != effective_season(
            Season::Auto,
            hemisphere,
            detected_southern,
            10,
            1,
        ),
{
}

/// On every date, the two hemispheres are in opposite seasons.
pub proof fn lemma_hemispheres_opposite(month: u32, day: u32)
    ensures
        southern_season(month, day) == opposite_season(northern_season(month, day)),
        northern_season(month, day) == opposite_season(southern_season(month, day)),
{
}

/// A configured season other than `Auto` is shown on every date, whatever
/// the hemisphere.
pub proof fn lemma_configured_season_wins(
    configured: Season,
    hemisphere: Hemisphere,
    detected_southern: bool,
    month: u32,
    day: u32,
)
    requires
        configured != Season::Auto,
    ensures
        effective_season(configured, hemisphere, detected_southern, month, day) == configured,
{
}

} // verus!
