//! Colours of the tree's characters: the trunk and the lower branches take
//! fixed palette colours, the canopy a gradient between four stops, and a
//! cache keeps the coloured grid until the season, mood or art changes.

use vstd::prelude::*;
use crate::config::{Mood, Season};
use crate::palette::{NordColor, CellColor, brightness, cell_color_of, rgb_of, to_cell_color};
use crate::tree::{art_width, art_width_of};

verus! {

/// How heavily a character is drawn: wood (`% # @`), twigs (`* + =`), or
/// blossom (anything else).
#[derive(Debug, Clone, Copy, PartialEq, Eq, Structural)]
pub enum CharClass {
    Heavy,
    Medium,
    Light,
}

/// The weight class of a character.
pub open spec fn class_of(ch: char) -> CharClass {
    if ch == '%' || ch == '#' || ch == '@' {
        CharClass::Heavy
    } else if ch == '*' || ch == '+' || ch == '=' {
        CharClass::Medium
    } else {
        CharClass::Light
    }
}

/// The weight class of a character.
pub fn char_class(ch: char) -> (res: CharClass)
    ensures
        res == class_of(ch),
{
    if ch == '%' || ch == '#' || ch == '@' {
        CharClass::Heavy
    } else if ch == '*' || ch == '+' || ch == '=' {
        CharClass::Medium
    } else {
        CharClass::Light
    }
}

/// The band of the tree a row belongs to.
#[derive(Debug, Clone, Copy, PartialEq, Eq, Structural)]
pub enum TreeZone {
    Trunk,
    LowerBranches,
    Canopy,
}

/// Rows from 60% of the height down are trunk, rows from 48% lower branches,
/// the rest canopy.
pub open spec fn zone_of(r: int, total_rows: int) -> TreeZone {
    if r >= (total_rows * 60) / 100 {
        TreeZone::Trunk
    } else if r >= (total_rows * 48) / 100 {
        TreeZone::LowerBranches
    } else {
        TreeZone::Canopy
    }
}

/// The band of the tree that row `r` of `total_rows` belongs to.
pub fn tree_zone(r: usize, total_rows: usize) -> (res: TreeZone)
    requires
        total_rows <= usize::MAX / 100,
    ensures
        res == zone_of(r as int, total_rows as int),
{
    if r >= (total_rows * 60) / 100 {
        TreeZone::Trunk
    } else if r >= (total_rows * 48) / 100 {
        TreeZone::LowerBranches
    } else {
        TreeZone::Canopy
    }
}

/// The bark colours of the trunk.
pub open spec fn trunk_color_of(class: CharClass, mood: Mood) -> NordColor {
    match (class, mood) {
        (CharClass::Heavy, Mood::Night) => NordColor::PolarSlateBright,
        (CharClass::Heavy, Mood::Day) => NordColor::PolarSlateMed,
        (CharClass::Medium, Mood::Night) => NordColor::ArcticBlue,
        (CharClass::Medium, Mood::Day) => NordColor::PineTeal,
        (CharClass::Light, Mood::Night) => NordColor::GlacialBlue,
        (CharClass::Light, Mood::Day) => NordColor::NordFrostTeal,
    }
}

/// The colours of the lower branches, between trunk and canopy.
pub open spec fn branch_color_of(class: CharClass, season: Season, mood: Mood) -> NordColor {
    match season {
        Season::Spring | Season::Auto => match (class, mood) {
            (CharClass::Heavy, Mood::Night) => NordColor::ShadowPlum,
            (CharClass::Heavy, Mood::Day) => NordColor::ArcticBlue,
            (CharClass::Medium, Mood::Night) => NordColor::DuskMauve,
            (CharClass::Medium, Mood::Day) => NordColor::WisteriaViolet,
            (CharClass::Light, _) => NordColor::SakuraMist,
        },
        Season::Summer => match class {
            CharClass::Heavy => NordColor::PineTeal,
            CharClass::Medium => NordColor::AuroraGreen,
            CharClass::Light => NordColor::HoneyGold,
        },
        Season::Autumn => match class {
            CharClass::Heavy => NordColor::AmberBronze,
            CharClass::Medium => NordColor::AuroraRed,
            CharClass::Light => NordColor::GoldenOchre,
        },
        Season::Winter => match class {
            CharClass::Heavy => NordColor::ArcticBlue,
            CharClass::Medium => NordColor::SeaTeal,
            CharClass::Light => NordColor::GlacialMist,
        },
    }
}

/// The four stops of the canopy gradient, from the shaded core to the
/// radiant rim.
#[derive(Debug, Clone, Copy, PartialEq, Eq, Structural)]
pub struct CanopyStops {
    pub core: NordColor,
    pub inner: NordColor,
    pub outer: NordColor,
    pub rim: NordColor,
}

/// The canopy gradient of a season and mood.
pub open spec fn canopy_stops_of(season: Season, mood: Mood) -> CanopyStops {
    match season {
        Season::Spring | Season::Auto => match mood {
            Mood::Night => CanopyStops {
                core: NordColor::ShadowPlum,
                inner: NordColor::DuskMauve,
                outer: NordColor::BlossomRose,
                rim: NordColor::SakuraMist,
            },
            Mood::Day => CanopyStops {
                core: NordColor::ArcticBlue,
                inner: NordColor::SakuraPurple,
                outer: NordColor::SakuraMist,
                rim: NordColor::SnowWhite,
            },
        },
        Season::Summer => match mood {
            Mood::Night => CanopyStops {
                core: NordColor::PineTeal,
                inner: NordColor::SeaTeal,
                outer: NordColor::AuroraGreen,
                rim: NordColor::HoneyGold,
            },
            Mood::Day => CanopyStops {
                core: NordColor::PineTeal,
                inner: NordColor::AuroraGreen,
                outer: NordColor::HoneyGold,
                rim: NordColor::GoldChampagne,
            },
        },
        Season::Autumn => match mood {
            Mood::Night => CanopyStops {
                core: NordColor::AmberBronze,
                inner: NordColor::AuroraRed,
                outer: NordColor::AuroraOrange,
                rim: NordColor::HoneyGold,
            },
            Mood::Day => CanopyStops {
                core: NordColor::AuroraRed,
                inner: NordColor::AuroraOrange,
                outer: NordColor::GoldenOchre,
                rim: NordColor::GoldChampagne,
            },
        },
        Season::Winter => match mood {
            Mood::Night => CanopyStops {
                core: NordColor::ArcticBlue,
                inner: NordColor::SeaTeal,
                outer: NordColor::NordFrostCyan,
                rim: NordColor::GlacialMist,
            },
            Mood::Day => CanopyStops {
                core: NordColor::GlacialBlue,
                inner: NordColor::NordFrostCyan,
                outer: NordColor::GlacialMist,
                rim: NordColor::SnowWhite,
            },
        },
    }
}

/// The bark colour of a trunk character.
pub fn trunk_color(class: CharClass, mood: Mood) -> (res: NordColor)
    ensures
        res == trunk_color_of(class, mood),
{
    match (class, mood) {
        (CharClass::Heavy, Mood::Night) => NordColor::PolarSlateBright,
        (CharClass::Heavy, Mood::Day) => NordColor::PolarSlateMed,
        (CharClass::Medium, Mood::Night) => NordColor::ArcticBlue,
        (CharClass::Medium, Mood::Day) => NordColor::PineTeal,
        (CharClass::Light, Mood::Night) => NordColor::GlacialBlue,
        (CharClass::Light, Mood::Day) => NordColor::NordFrostTeal,
    }
}

/// The colour of a lower-branch character.
pub fn branch_color(class: CharClass, season: Season, mood: Mood) -> (res: NordColor)
    ensures
        res == branch_color_of(class, season, mood),
{
    match season {
        Season::Spring | Season::Auto => match (class, mood) {
            (CharClass::Heavy, Mood::Night) => NordColor::ShadowPlum,
            (CharClass::Heavy, Mood::Day) => NordColor::ArcticBlue,
            (CharClass::Medium, Mood::Night) => NordColor::DuskMauve,
            (CharClass::Medium, Mood::Day) => NordColor::WisteriaViolet,
            (CharClass::Light, _) => NordColor::SakuraMist,
        },
        Season::Summer => match class {
            CharClass::Heavy => NordColor::PineTeal,
            CharClass::Medium => NordColor::AuroraGreen,
            CharClass::Light => NordColor::HoneyGold,
        },
        Season::Autumn => match class {
            CharClass::Heavy => NordColor::AmberBronze,
            CharClass::Medium => NordColor::AuroraRed,
            CharClass::Light => NordColor::GoldenOchre,
        },
        Season::Winter => match class {
            CharClass::Heavy => NordColor::ArcticBlue,
            CharClass::Medium => NordColor::SeaTeal,
            CharClass::Light => NordColor::GlacialMist,
        },
    }
}

/// The canopy gradient of a season and mood.
pub fn canopy_stops(season: Season, mood: Mood) -> (res: CanopyStops)
    ensures
        res == canopy_stops_of(season, mood),
{
    match season {
        Season::Spring | Season::Auto => match mood {
            Mood::Night => CanopyStops {
                core: NordColor::ShadowPlum,
                inner: NordColor::DuskMauve,
                outer: NordColor::BlossomRose,
                rim: NordColor::SakuraMist,
            },
            Mood::Day => CanopyStops {
                core: NordColor::ArcticBlue,
                inner: NordColor::SakuraPurple,
                outer: NordColor::SakuraMist,
                rim: NordColor::SnowWhite,
            },
        },
        Season::Summer => match mood {
            Mood::Night => CanopyStops {
                core: NordColor::PineTeal,
                inner: NordColor::SeaTeal,
                outer: NordColor::AuroraGreen,
                rim: NordColor::HoneyGold,
            },
            Mood::Day => CanopyStops {
                core: NordColor::PineTeal,
                inner: NordColor::AuroraGreen,
                outer: NordColor::HoneyGold,
                rim: NordColor::GoldChampagne,
            },
        },
        Season::Autumn => match mood {
            Mood::Night => CanopyStops {
                core: NordColor::AmberBronze,
                inner: NordColor::AuroraRed,
                outer: NordColor::AuroraOrange,
                rim: NordColor::HoneyGold,
            },
            Mood::Day => CanopyStops {
                core: NordColor::AuroraRed,
                inner: NordColor::AuroraOrange,
                outer: NordColor::GoldenOchre,
                rim: NordColor::GoldChampagne,
            },
        },
        Season::Winter => match mood {
            Mood::Night => CanopyStops {
                core: NordColor::ArcticBlue,
                inner: NordColor::SeaTeal,
                outer: NordColor::NordFrostCyan,
                rim: NordColor::GlacialMist,
            },
            Mood::Day => CanopyStops {
                core: NordColor::GlacialBlue,
                inner: NordColor::NordFrostCyan,
                outer: NordColor::GlacialMist,
                rim: NordColor::SnowWhite,
            },
        },
    }
}

/// Which weight class each character falls in: `%`, `#` and `@` are wood,
/// `*`, `+` and `=` twigs, every other character blossom.
pub proof fn lemma_char_classes(ch: char)
    ensures
        class_of(ch) == CharClass::Heavy <==> (ch == '%' || ch == '#' || ch == '@'),
        class_of(ch) == CharClass::Medium <==> (ch == '*' || ch == '+' || ch == '='),
        class_of(ch) == CharClass::Light <==> !(ch == '%' || ch == '#' || ch == '@' || ch == '*' || ch
            == '+' || ch == '='),
{
}

/// Whether a colour leans green (more green than red).
pub open spec fn greenish(c: NordColor) -> bool {
    rgb_of(c).1 > rgb_of(c).0
}

/// Whether a colour leans red (more red than green).
pub open spec fn reddish(c: NordColor) -> bool {
    rgb_of(c).0 > rgb_of(c).1
}

/// Whether a colour leans blue (more blue than red).
pub open spec fn bluish(c: NordColor) -> bool {
    rgb_of(c).2 > rgb_of(c).0
}

/// Whether a colour is a blossom pink: red and blue both above green.
pub open spec fn pinkish(c: NordColor) -> bool {
    rgb_of(c).0 > rgb_of(c).1 && rgb_of(c).2 > rgb_of(c).1
}

/// The canopy gradient of every season and mood brightens from the shaded
/// core to the radiant rim, and its core and inner stops carry the
/// season's hue: blossom pink in spring (and `Auto`), greens in summer,
/// reds and ambers in autumn, blues in winter.
pub proof fn lemma_canopy_gradient_hues(season: Season, mood: Mood)
    ensures
        brightness(canopy_stops_of(season, mood).core) < brightness(canopy_stops_of(season, mood).inner),
        brightness(canopy_stops_of(season, mood).inner) < brightness(canopy_stops_of(season, mood).outer),
        brightness(canopy_stops_of(season, mood).outer) < brightness(canopy_stops_of(season, mood).rim),
        (season == Season::Spring || season == Season::Auto) ==> pinkish(
            canopy_stops_of(season, mood).inner,
        ),
        season == Season::Summer ==> greenish(canopy_stops_of(season, mood).core) && greenish(
            canopy_stops_of(season, mood).inner,
        ),
        season == Season::Autumn ==> reddish(canopy_stops_of(season, mood).core) && reddish(
            canopy_stops_of(season, mood).inner,
        ),
        season == Season::Winter ==> bluish(canopy_stops_of(season, mood).core) && bluish(
            canopy_stops_of(season, mood).inner,
        ),
{
}

/// The canopy gradients, core to rim, as the scene's palette defines them.
pub proof fn lemma_canopy_gradient_table(mood: Mood)
    ensures
        mood == Mood::Night ==> {
            &&& canopy_stops_of(Season::Spring, mood) == (CanopyStops {
                core: NordColor::ShadowPlum,
                inner: NordColor::DuskMauve,
                outer: NordColor::BlossomRose,
                rim: NordColor::SakuraMist,
            })
            &&& canopy_stops_of(Season::Summer, mood) == (CanopyStops {
                core: NordColor::PineTeal,
                inner: NordColor::SeaTeal,
                outer: NordColor::AuroraGreen,
                rim: NordColor::HoneyGold,
            })
            &&& canopy_stops_of(Season::Autumn, mood) == (CanopyStops {
                core: NordColor::AmberBronze,
                inner: NordColor::AuroraRed,
                outer: NordColor::AuroraOrange,
                rim: NordColor::HoneyGold,
            })
            &&& canopy_stops_of(Season::Winter, mood) == (CanopyStops {
                core: NordColor::ArcticBlue,
                inner: NordColor::SeaTeal,
                outer: NordColor::NordFrostCyan,
                rim: NordColor::GlacialMist,
            })
        },
        mood == Mood::Day ==> {
            &&& canopy_stops_of(Season::Spring, mood) == (CanopyStops {
                core: NordColor::ArcticBlue,
                inner: NordColor::SakuraPurple,
                outer: NordColor::SakuraMist,
                rim: NordColor::SnowWhite,
            })
            &&& canopy_stops_of(Season::Summer, mood) == (CanopyStops {
                core: NordColor::PineTeal,
                inner: NordColor::AuroraGreen,
                outer: NordColor::HoneyGold,
                rim: NordColor::GoldChampagne,
            })
            &&& canopy_stops_of(Season::Autumn, mood) == (CanopyStops {
                core: NordColor::AuroraRed,
                inner: NordColor::AuroraOrange,
                outer: NordColor::GoldenOchre,
                rim: NordColor::GoldChampagne,
            })
            &&& canopy_stops_of(Season::Winter, mood) == (CanopyStops {
                core: NordColor::GlacialBlue,
                inner: NordColor::NordFrostCyan,
                outer: NordColor::GlacialMist,
                rim: NordColor::SnowWhite,
            })
        },
{
}

/// Bark is a cool colour (more blue than red), and heavier characters are
/// drawn darker: wood below twigs below blossom, by night and by day.
pub proof fn lemma_trunk_colors(class: CharClass, mood: Mood)
    ensures
        bluish(trunk_color_of(class, mood)),
        brightness(trunk_color_of(CharClass::Heavy, mood)) < brightness(
            trunk_color_of(CharClass::Medium, mood),
        ),
        brightness(trunk_color_of(CharClass::Medium, mood)) < brightness(
            trunk_color_of(CharClass::Light, mood),
        ),
        trunk_color_of(CharClass::Heavy, Mood::Night) == NordColor::PolarSlateBright,
        trunk_color_of(CharClass::Heavy, Mood::Day) == NordColor::PolarSlateMed,
        trunk_color_of(CharClass::Medium, Mood::Night) == NordColor::ArcticBlue,
        trunk_color_of(CharClass::Medium, Mood::Day) == NordColor::PineTeal,
        trunk_color_of(CharClass::Light, Mood::Night) == NordColor::GlacialBlue,
        trunk_color_of(CharClass::Light, Mood::Day) == NordColor::NordFrostTeal,
{
}

/// The lower branches darken with weight as the trunk does, and their wood
/// and twigs carry the season's hue as the canopy does.
pub proof fn lemma_branch_colors(season: Season, mood: Mood)
    ensures
        brightness(branch_color_of(CharClass::Heavy, season, mood)) < brightness(
            branch_color_of(CharClass::Medium, season, mood),
        ),
        brightness(branch_color_of(CharClass::Medium, season, mood)) < brightness(
            branch_color_of(CharClass::Light, season, mood),
        ),
        (season == Season::Spring || season == Season::Auto) ==> pinkish(
            branch_color_of(CharClass::Medium, season, mood),
        ),
        season == Season::Summer ==> greenish(branch_color_of(CharClass::Heavy, season, mood))
            && greenish(branch_color_of(CharClass::Medium, season, mood)),
        season == Season::Autumn ==> reddish(branch_color_of(CharClass::Heavy, season, mood))
            && reddish(branch_color_of(CharClass::Medium, season, mood)),
        season == Season::Winter ==> bluish(branch_color_of(CharClass::Heavy, season, mood))
            && bluish(branch_color_of(CharClass::Medium, season, mood)),
{
}

/// The lower-branch colours as the scene's palette defines them.
pub proof fn lemma_branch_color_table(mood: Mood)
    ensures
        branch_color_of(CharClass::Heavy, Season::Spring, Mood::Night) == NordColor::ShadowPlum,
        branch_color_of(CharClass::Heavy, Season::Spring, Mood::Day) == NordColor::ArcticBlue,
        branch_color_of(CharClass::Medium, Season::Spring, Mood::Night) == NordColor::DuskMauve,
        branch_color_of(CharClass::Medium, Season::Spring, Mood::Day) == NordColor::WisteriaViolet,
        branch_color_of(CharClass::Light, Season::Spring, mood) == NordColor::SakuraMist,
        branch_color_of(CharClass::Heavy, Season::Summer, mood) == NordColor::PineTeal,
        branch_color_of(CharClass::Medium, Season::Summer, mood) == NordColor::AuroraGreen,
        branch_color_of(CharClass::Light, Season::Summer, mood) == NordColor::HoneyGold,
        branch_color_of(CharClass::Heavy, Season::Autumn, mood) == NordColor::AmberBronze,
        branch_color_of(CharClass::Medium, Season::Autumn, mood) == NordColor::AuroraRed,
        branch_color_of(CharClass::Light, Season::Autumn, mood) == NordColor::GoldenOchre,
        branch_color_of(CharClass::Heavy, Season::Winter, mood) == NordColor::ArcticBlue,
        branch_color_of(CharClass::Medium, Season::Winter, mood) == NordColor::SeaTeal,
        branch_color_of(CharClass::Light, Season::Winter, mood) == NordColor::GlacialMist,
{
}

/// How a tree character is coloured: a fixed palette colour, or a point of
/// the canopy gradient that depends on where the character sits.
#[derive(Debug, Clone, Copy, PartialEq, Eq, Structural)]
pub enum TreeShade {
    Solid(NordColor),
    Canopy(CharClass, CanopyStops),
}

/// The shade of character `ch` in row `r` of a tree `total_rows` high.
pub open spec fn shade_of(ch: char, r: int, total_rows: int, season: Season, mood: Mood) -> TreeShade {
    match zone_of(r, total_rows) {
        TreeZone::Trunk => TreeShade::Solid(trunk_color_of(class_of(ch), mood)),
        TreeZone::LowerBranches => TreeShade::Solid(branch_color_of(class_of(ch), season, mood)),
        TreeZone::Canopy => TreeShade::Canopy(class_of(ch), canopy_stops_of(season, mood)),
    }
}

/// The shade of character `ch` in row `r` of a tree `total_rows` high.
pub fn tree_char_shade(ch: char, r: usize, total_rows: usize, season: Season, mood: Mood) -> (res: TreeShade)
    requires
        total_rows <= usize::MAX / 100,
    ensures
        res == shade_of(ch, r as int, total_rows as int, season, mood),
{
    let class = char_class(ch);
    match tree_zone(r, total_rows) {
        TreeZone::Trunk => TreeShade::Solid(trunk_color(class, mood)),
        TreeZone::LowerBranches => TreeShade::Solid(branch_color(class, season, mood)),
        TreeZone::Canopy => TreeShade::Canopy(class, canopy_stops(season, mood)),
    }
}

/// The automatic season shades a tree as spring does, in every row; and
/// the trunk rows (from 60% of the height down) take the same shade in
/// every season.
pub proof fn lemma_auto_shades_as_spring(ch: char, r: int, total_rows: int, mood: Mood, s1: Season, s2: Season)
    ensures
        shade_of(ch, r, total_rows, Season::Auto, mood) == shade_of(ch, r, total_rows, Season::Spring, mood),
        r >= (total_rows * 60) / 100 ==> shade_of(ch, r, total_rows, s1, mood) == shade_of(
            ch,
            r,
            total_rows,
            s2,
            mood,
        ),
{
}

/// A canopy character to be coloured by the gradient: its row and column,
/// the size of the art, its weight class and the gradient's stops.
#[derive(Debug, Clone, Copy, PartialEq, Eq, Structural)]
pub struct CanopyCell {
    pub r: usize,
    pub c: usize,
    pub total_rows: usize,
    pub total_cols: usize,
    pub class: CharClass,
    pub stops: CanopyStops,
}

/// `color` is what cell `(r, c)` holding `ch` is painted with, where the
/// canopy gradient is evaluated by `canopy`.
pub open spec fn painted<F: Fn(CanopyCell) -> CellColor>(
    canopy: F,
    ch: char,
    r: int,
    c: int,
    total_rows: int,
    total_cols: int,
    season: Season,
    mood: Mood,
    color: CellColor,
) -> bool {
    if ch == ' ' {
        color == CellColor::Reset
    } else {
        match shade_of(ch, r, total_rows, season, mood) {
            TreeShade::Solid(n) => color == cell_color_of(n),
            TreeShade::Canopy(class, stops) => canopy.ensures(
                (
                    CanopyCell {
                        r: r as usize,
                        c: c as usize,
                        total_rows: total_rows as usize,
                        total_cols: total_cols as usize,
                        class,
                        stops,
                    },
                ),
                color,
            ),
        }
    }
}

/// `colors` has the shape of `grid`, each cell painted as `painted` says.
pub open spec fn colors_of_grid<F: Fn(CanopyCell) -> CellColor>(
    canopy: F,
    grid: Seq<Vec<char>>,
    colors: Seq<Vec<CellColor>>,
    season: Season,
    mood: Mood,
) -> bool {
    &&& colors.len() == grid.len()
    &&& forall|r: int|
        0 <= r < grid.len() ==> (#[trigger] colors[r])@.len() == grid[r]@.len()
    &&& forall|r: int, c: int|
        0 <= r < grid.len() && 0 <= c < grid[r]@.len() ==> painted(
            canopy,
            #[trigger] grid[r]@[c],
            r,
            c,
            grid.len() as int,
            art_width_of(grid) as int,
            season,
            mood,
            colors[r]@[c],
        )
}

/// The coloured tree grid, kept until the season, the mood or the number of
/// rows of the art changes.
pub struct TreeColorCache {
    cached_season: Option<Season>,
    cached_mood: Option<Mood>,
    cached_grid_hash: usize,
    pub color_grid: Vec<Vec<CellColor>>,
}

impl TreeColorCache {
    /// The key the cached grid was computed for: season, mood, row count.
    pub closed spec fn key(&self) -> (Option<Season>, Option<Mood>, usize) {
        (self.cached_season, self.cached_mood, self.cached_grid_hash)
    }

    /// Whether the cached grid serves art of `rows` rows in this season and
    /// mood: the key matches and the grid is not empty.
    pub closed spec fn serves(&self, rows: usize, season: Season, mood: Mood) -> bool {
        &&& self.key() == (Some(season), Some(mood), rows)
        &&& self.color_grid@.len() > 0
    }

    /// The cached colour grid.
    pub closed spec fn colors(&self) -> Seq<Vec<CellColor>> {
        self.color_grid@
    }

    /// What one lookup does: a cache that serves the request is left as it
    /// is; otherwise it is keyed to the request and holds the grid's colours.
    pub open spec fn looked_up<F: Fn(CanopyCell) -> CellColor>(
        before: Self,
        after: Self,
        grid: Seq<Vec<char>>,
        season: Season,
        mood: Mood,
        canopy: F,
    ) -> bool {
        &&& before.serves(grid.len() as usize, season, mood) ==> after == before
        &&& !before.serves(grid.len() as usize, season, mood) ==> {
            &&& after.key() == (Some(season), Some(mood), grid.len() as usize)
            &&& colors_of_grid(canopy, grid, after.colors(), season, mood)
        }
    }

    /// An empty cache, which serves no request.
    pub fn new() -> (res: Self)
        ensures
            res.key() == (None::<Season>, None::<Mood>, 0usize),
            res.colors().len() == 0,
            forall|rows: usize, season: Season, mood: Mood| !#[trigger] res.serves(rows, season, mood),
    {
        TreeColorCache { cached_season: None, cached_mood: None, cached_grid_hash: 0, color_grid: Vec::new() }
    }

    /// The colours of the tree grid for this season and mood: the cached
    /// grid when it still serves, otherwise a grid computed anew, where
    /// spaces are left uncoloured, trunk and lower branches take their
    /// palette colours and canopy characters are coloured by `canopy`.
    pub fn get_or_compute<F: Fn(CanopyCell) -> CellColor>(
        &mut self,
        tree_grid: &Vec<Vec<char>>,
        season: Season,
        mood: Mood,
        canopy: F,
    ) -> (res: &Vec<Vec<CellColor>>)
        requires
            tree_grid@.len() <= usize::MAX / 100,
            forall|cell: CanopyCell| canopy.requires((cell,)),
        ensures
            Self::looked_up(*old(self), *final(self), tree_grid@, season, mood, canopy),
            res@ == final(self).colors(),
    {
        let grid_len = tree_grid.len();
        let needs_recompute = !(match self.cached_season {
            Some(s) => s == season,
            None => false,
        }) || !(match self.cached_mood {
            Some(m) => m == mood,
            None => false,
        }) || self.cached_grid_hash != grid_len || self.color_grid.len() == 0;
        if needs_recompute {
            let art_height = grid_len;
            let total_cols = art_width(tree_grid);
            let mut new_grid: Vec<Vec<CellColor>> = Vec::new();
            let mut r: usize = 0;
            while r < art_height
                invariant
                    art_height == tree_grid@.len(),
                    art_height <= usize::MAX / 100,
                    total_cols == art_width_of(tree_grid@),
                    forall|cell: CanopyCell| canopy.requires((cell,)),
                    r <= art_height,
                    new_grid@.len() == r,
                    forall|rr: int|
                        0 <= rr < r ==> (#[trigger] new_grid@[rr])@.len() == tree_grid@[rr]@.len(),
                    forall|rr: int, c: int|
                        0 <= rr < r && 0 <= c < tree_grid@[rr]@.len() ==> painted(
                            canopy,
                            #[trigger] tree_grid@[rr]@[c],
                            rr,
                            c,
                            art_height as int,
                            total_cols as int,
                            season,
                            mood,
                            new_grid@[rr]@[c],
                        ),
                decreases art_height - r,
            {
                let row = &tree_grid[r];
                let row_len = row.len();
                let mut row_colors: Vec<CellColor> = Vec::new();
                let mut c: usize = 0;
                while c < row_len
                    invariant
                        art_height == tree_grid@.len(),
                        art_height <= usize::MAX / 100,
                        total_cols == art_width_of(tree_grid@),
                        forall|cell: CanopyCell| canopy.requires((cell,)),
                        r < art_height,
                        row == &tree_grid@[r as int],
                        row_len == row@.len(),
                        c <= row_len,
                        row_colors@.len() == c,
                        forall|cc: int|
                            0 <= cc < c ==> painted(
                                canopy,
                                #[trigger] row@[cc],
                                r as int,
                                cc,
                                art_height as int,
                                total_cols as int,
                                season,
                                mood,
                                row_colors@[cc],
                            ),
                    decreases row_len - c,
                {
                    let ch = row[c];
                    let color = if ch == ' ' {
                        CellColor::Reset
                    } else {
                        match tree_char_shade(ch, r, art_height, season, mood) {
                            TreeShade::Solid(n) => to_cell_color(n),
                            TreeShade::Canopy(class, stops) => canopy(
                                CanopyCell { r, c, total_rows: art_height, total_cols, class, stops },
                            ),
                        }
                    };
                    row_colors.push(color);
                    c = c + 1;
                }
                new_grid.push(row_colors);
                r = r + 1;
            }
            self.color_grid = new_grid;
            self.cached_season = Some(season);
            self.cached_mood = Some(mood);
            self.cached_grid_hash = grid_len;
        }
        &self.color_grid
    }
}

impl Default for TreeColorCache {
    /// An empty cache, which serves no request.
    fn default() -> (res: Self)
        ensures
            res.key() == (None::<Season>, None::<Mood>, 0usize),
            res.colors().len() == 0,
            forall|rows: usize, season: Season, mood: Mood| !#[trigger] res.serves(rows, season, mood),
    {
        TreeColorCache::new()
    }
}

/// Asking the cache twice in a row for the colours of the same non-empty
/// art in the same season and mood: the second lookup changes nothing, so
/// it gives back the colours of the first.
pub proof fn lemma_cache_reuse<F: Fn(CanopyCell) -> CellColor, G: Fn(CanopyCell) -> CellColor>(
    start: TreeColorCache,
    after_first: TreeColorCache,
    after_second: TreeColorCache,
    grid: Seq<Vec<char>>,
    season: Season,
    mood: Mood,
    first_canopy: F,
    second_canopy: G,
)
    requires
        grid.len() > 0,
        TreeColorCache::looked_up(start, after_first, grid, season, mood, first_canopy),
        TreeColorCache::looked_up(after_first, after_second, grid, season, mood, second_canopy),
    ensures
        after_second == after_first,
        after_second.colors() == after_first.colors(),
{
}

/// A lookup gives the colours of the grid asked for whenever the cache did
/// not serve the request (a new cache serves none), or when what it held
/// were already that grid's colours.
pub proof fn lemma_lookup_gives_grid_colors<F: Fn(CanopyCell) -> CellColor>(
    before: TreeColorCache,
    after: TreeColorCache,
    grid: Seq<Vec<char>>,
    season: Season,
    mood: Mood,
    canopy: F,
)
    requires
        TreeColorCache::looked_up(before, after, grid, season, mood, canopy),
        !before.serves(grid.len() as usize, season, mood) || colors_of_grid(
            canopy,
            grid,
            before.colors(),
            season,
            mood,
        ),
    ensures
        colors_of_grid(canopy, grid, after.colors(), season, mood),
{
}

} // verus!
