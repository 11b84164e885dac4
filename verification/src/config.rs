//! Settings chosen on the command line: mood, season, hemisphere and the
//! rest of the configuration that the screensaver runs with.

use vstd::prelude::*;
use crate::text::{str_equals, opt_str_view, opt_string_view};

verus! {

/// Colour mood of the scene.
#[derive(Debug, Clone, Copy, PartialEq, Eq, Structural)]
pub enum Mood {
    Day,
    Night,
}

/// Season of the tree; `Auto` follows the calendar.
#[derive(Debug, Clone, Copy, PartialEq, Eq, Structural)]
pub enum Season {
    Auto,
    Spring,
    Summer,
    Autumn,
    Winter,
}

/// Hemisphere used to turn the calendar into a season.
#[derive(Debug, Clone, Copy, PartialEq, Eq, Structural)]
pub enum Hemisphere {
    Auto,
    North,
    South,
}

/// The mood that a `--mood` value selects: only `day` or `Day` give `Day`.
pub open spec fn mood_named(name: Option<Seq<char>>) -> Mood {
    match name {
        Some(s) => if s == "day"@ || s == "Day"@ { Mood::Day } else { Mood::Night },
        None => Mood::Night,
    }
}

/// The season that a `--season` value selects; anything unknown is `Auto`.
pub open spec fn season_named(name: Option<Seq<char>>) -> Season {
    match name {
        Some(s) => if s == "spring"@ || s == "Spring"@ {
            Season::Spring
        } else if s == "summer"@ || s == "Summer"@ {
            Season::Summer
        } else if s == "autumn"@ || s == "Autumn"@ || s == "fall"@ || s == "Fall"@ {
            Season::Autumn
        } else if s == "winter"@ || s == "Winter"@ {
            Season::Winter
        } else {
            Season::Auto
        },
        None => Season::Auto,
    }
}

/// The hemisphere that a `--hemisphere` value selects; anything unknown is `Auto`.
pub open spec fn hemisphere_named(name: Option<Seq<char>>) -> Hemisphere {
    match name {
        Some(s) => if s == "south"@ || s == "South"@ {
            Hemisphere::South
        } else if s == "north"@ || s == "North"@ {
            Hemisphere::North
        } else {
            Hemisphere::Auto
        },
        None => Hemisphere::Auto,
    }
}

/// The spellings each `--season` value is accepted in: the season's name
/// in lower case or capitalised (and "fall" or "Fall" for autumn); any
/// other text, or no value, leaves the season to the calendar.
pub proof fn lemma_season_spellings(t: Seq<char>)
    ensures
        season_named(Some(t)) == Season::Spring <==> (t == "spring"@ || t == "Spring"@),
        season_named(Some(t)) == Season::Summer <==> (t == "summer"@ || t == "Summer"@),
        season_named(Some(t)) == Season::Autumn <==> (t == "autumn"@ || t == "Autumn"@ || t == "fall"@
            || t == "Fall"@),
        season_named(Some(t)) == Season::Winter <==> (t == "winter"@ || t == "Winter"@),
        season_named(None) == Season::Auto,
{
    reveal_strlit("spring");
    reveal_strlit("Spring");
    reveal_strlit("summer");
    reveal_strlit("Summer");
    reveal_strlit("autumn");
    reveal_strlit("Autumn");
    reveal_strlit("fall");
    reveal_strlit("Fall");
    reveal_strlit("winter");
    reveal_strlit("Winter");
    if t == "summer"@ || t == "Summer"@ {
        assert(t[1] == 'u');
    }
    if t == "autumn"@ || t == "Autumn"@ || t == "fall"@ || t == "Fall"@ {
        assert(t[0] == 'a' || t[0] == 'A' || t[0] == 'f' || t[0] == 'F');
    }
    if t == "winter"@ || t == "Winter"@ {
        assert(t[0] == 'w' || t[0] == 'W');
    }
}

/// The spellings each `--mood` value is accepted in: "day" or "Day" give
/// the day palette; any other text, or no value, the night palette.
pub proof fn lemma_mood_spellings(t: Seq<char>)
    ensures
        mood_named(Some(t)) == Mood::Day <==> (t == "day"@ || t == "Day"@),
        mood_named(Some(t)) == Mood::Night <==> !(t == "day"@ || t == "Day"@),
        mood_named(None) == Mood::Night,
{
}

/// The spellings each `--hemisphere` value is accepted in: "south" or
/// "South", "north" or "North"; any other text, or no value, leaves the
/// hemisphere to detection.
pub proof fn lemma_hemisphere_spellings(t: Seq<char>)
    ensures
        hemisphere_named(Some(t)) == Hemisphere::South <==> (t == "south"@ || t == "South"@),
        hemisphere_named(Some(t)) == Hemisphere::North <==> (t == "north"@ || t == "North"@),
        hemisphere_named(None) == Hemisphere::Auto,
{
    reveal_strlit("south");
    reveal_strlit("South");
    reveal_strlit("north");
    reveal_strlit("North");
    if t == "north"@ || t == "North"@ {
        assert(t[1] == 'o' && t[2] == 'r');
    }
}

/// Reads a `--mood` value.
pub fn parse_mood(name: Option<&str>) -> (res: Mood)
    ensures
        res == mood_named(opt_str_view(name)),
{
    match name {
        Some(s) => {
            if str_equals(s, "day") || str_equals(s, "Day") {
                Mood::Day
            } else {
                Mood::Night
            }
        },
        None => Mood::Night,
    }
}

/// Reads a `--season` value.
pub fn parse_season(name: Option<&str>) -> (res: Season)
    ensures
        res == season_named(opt_str_view(name)),
{
    match name {
        Some(s) => {
            if str_equals(s, "spring") || str_equals(s, "Spring") {
                Season::Spring
            } else if str_equals(s, "summer") || str_equals(s, "Summer") {
                Season::Summer
            } else if str_equals(s, "autumn") || str_equals(s, "Autumn") || str_equals(s, "fall")
                || str_equals(s, "Fall") {
                Season::Autumn
            } else if str_equals(s, "winter") || str_equals(s, "Winter") {
                Season::Winter
            } else {
                Season::Auto
            }
        },
        None => Season::Auto,
    }
}

/// Reads a `--hemisphere` value.
pub fn parse_hemisphere(name: Option<&str>) -> (res: Hemisphere)
    ensures
        res == hemisphere_named(opt_str_view(name)),
{
    match name {
        Some(s) => {
            if str_equals(s, "south") || str_equals(s, "South") {
                Hemisphere::South
            } else if str_equals(s, "north") || str_equals(s, "North") {
                Hemisphere::North
            } else {
                Hemisphere::Auto
            }
        },
        None => Hemisphere::Auto,
    }
}

/// The command-line flags that the configuration is made from (the
/// speed and sway multipliers are clamped by the binary itself).
pub struct CliArgs {
    pub art: Option<String>,
    pub stars: bool,
    pub no_stars: bool,
    pub mood: Option<String>,
    pub season: Option<String>,
    pub hemisphere: Option<String>,
    pub no_weather: bool,
    pub weather: bool,
    pub city: Option<String>,
    pub about: bool,
}

/// The configuration the screensaver runs with.
pub struct AppConfig {
    pub art_path: Option<String>,
    pub stars: bool,
    pub mood: Mood,
    pub season: Season,
    pub hemisphere: Hemisphere,
    pub enable_weather: bool,
    pub city: String,
}

/// What the command line asks for.
pub enum ConfigActionResult {
    Run(AppConfig),
    Help,
    About,
    Version,
}

/// The view of an optional string, `None` read as the empty string.
pub open spec fn chars_or_empty(o: Option<String>) -> Seq<char> {
    match o {
        Some(s) => s@,
        None => Seq::empty(),
    }
}

/// Maps an optional owned string to an optional slice of it.
fn as_opt_str(o: &Option<String>) -> (res: Option<&str>)
    ensures
        opt_str_view(res) == opt_string_view(*o),
{
    match o {
        Some(s) => Some(s.as_str()),
        None => None,
    }
}

/// Turns the command-line flags into the action to take: `--about` shows
/// the about page, anything else runs with the configuration the flags
/// describe. Stars are on unless `--no-stars`, and weather is on unless
/// `--no-weather`.
pub fn config_from_args(args: CliArgs) -> (res: ConfigActionResult)
    ensures
        args.about ==> res is About,
        !args.about ==> (res matches ConfigActionResult::Run(c) && {
            &&& c.art_path == args.art
            &&& c.stars == !args.no_stars
            &&& c.mood == mood_named(opt_string_view(args.mood))
            &&& c.season == season_named(opt_string_view(args.season))
            &&& c.hemisphere == hemisphere_named(opt_string_view(args.hemisphere))
            &&& c.enable_weather == !args.no_weather
            &&& c.city@ == chars_or_empty(args.city)
        }),
{
    if args.about {
        return ConfigActionResult::About;
    }
    let mood = parse_mood(as_opt_str(&args.mood));
    let season = parse_season(as_opt_str(&args.season));
    let hemisphere = parse_hemisphere(as_opt_str(&args.hemisphere));
    let city = match args.city {
        Some(c) => c,
        None => String::new(),
    };
    let config = AppConfig {
        art_path: args.art,
        stars: !args.no_stars,
        mood,
        season,
        hemisphere,
        enable_weather: !args.no_weather,
        city,
    };
    ConfigActionResult::Run(config)
}

} // verus!
