//! The colours and glyphs the scene is drawn with. Brightness, age and
//! height are measured by the animation; each is sorted into a tier, and
//! these tables say what each tier looks like.

use vstd::prelude::*;
use crate::config::{Mood, Season};
use crate::palette::{NordColor, brightness, rgb_of};
use crate::physics::BirdFlightState;
use crate::weather::WeatherFxKind;

verus! {

/// The colour of the ground contour.
pub fn ground_color(mood: Mood) -> (res: NordColor)
    ensures
        res == (match mood {
            Mood::Night => NordColor::PolarSlateBright,
            Mood::Day => NordColor::PolarSlateMed,
        }),
{
    match mood {
        Mood::Night => NordColor::PolarSlateBright,
        Mood::Day => NordColor::PolarSlateMed,
    }
}

/// The colour of the grass tufts.
pub open spec fn grass_color_of(season: Season, mood: Mood) -> NordColor {
    match season {
        Season::Spring | Season::Auto => match mood {
            Mood::Night => NordColor::WisteriaViolet,
            Mood::Day => NordColor::AuroraGreen,
        },
        Season::Summer => NordColor::AuroraGreen,
        Season::Autumn => NordColor::GoldenOchre,
        Season::Winter => NordColor::GlacialMist,
    }
}

/// The colour of the grass tufts.
pub fn grass_color(season: Season, mood: Mood) -> (res: NordColor)
    ensures
        res == grass_color_of(season, mood),
{
    match season {
        Season::Spring | Season::Auto => match mood {
            Mood::Night => NordColor::WisteriaViolet,
            Mood::Day => NordColor::AuroraGreen,
        },
        Season::Summer => NordColor::AuroraGreen,
        Season::Autumn => NordColor::GoldenOchre,
        Season::Winter => NordColor::GlacialMist,
    }
}

/// The colour of fog and cloud wisps.
pub fn wisp_color(mood: Mood) -> (res: NordColor)
    ensures
        res == (match mood {
            Mood::Night => NordColor::PolarSlateBright,
            Mood::Day => NordColor::SnowMist,
        }),
{
    match mood {
        Mood::Night => NordColor::PolarSlateBright,
        Mood::Day => NordColor::SnowMist,
    }
}

/// A twinkling star by glow tier, 0 the brightest: peak, bright, soft, dim
/// and deep.
pub open spec fn star_glow_of(tier: u8) -> (char, NordColor) {
    if tier == 0 {
        ('*', NordColor::SnowWhite)
    } else if tier == 1 {
        ('+', NordColor::GlacialMist)
    } else if tier == 2 {
        ('.', NordColor::SoftFrostTeal)
    } else if tier == 3 {
        ('.', NordColor::GlacialBlue)
    } else {
        ('.', NordColor::ArcticBlue)
    }
}

/// The glyph and colour of a star of the given glow tier.
pub fn star_glow(tier: u8) -> (res: (char, NordColor))
    requires
        tier < 5,
    ensures
        res == star_glow_of(tier),
{
    if tier == 0 {
        ('*', NordColor::SnowWhite)
    } else if tier == 1 {
        ('+', NordColor::GlacialMist)
    } else if tier == 2 {
        ('.', NordColor::SoftFrostTeal)
    } else if tier == 3 {
        ('.', NordColor::GlacialBlue)
    } else {
        ('.', NordColor::ArcticBlue)
    }
}

/// The colour of a settled petal by fading stage, 0 the freshest: its own
/// colour, then a seasonal rose and a seasonal dusk, then the night's or
/// day's blue, then slate.
pub open spec fn settled_color_of(stage: u8, base: NordColor, season: Season, mood: Mood) -> NordColor {
    if stage == 0 {
        base
    } else if stage == 1 {
        match season {
            Season::Spring | Season::Auto => NordColor::BlossomRose,
            Season::Summer => NordColor::SeaTeal,
            Season::Autumn => NordColor::AuroraOrange,
            Season::Winter => NordColor::NordFrostCyan,
        }
    } else if stage == 2 {
        match season {
            Season::Spring | Season::Auto => NordColor::DuskMauve,
            Season::Summer => NordColor::PineTeal,
            Season::Autumn => NordColor::AmberBronze,
            Season::Winter => NordColor::ArcticBlue,
        }
    } else if stage == 3 {
        match mood {
            Mood::Night => NordColor::ArcticBlue,
            Mood::Day => NordColor::GlacialBlue,
        }
    } else {
        match mood {
            Mood::Night => NordColor::PolarSlateBright,
            Mood::Day => NordColor::PolarSlateMed,
        }
    }
}

/// The colour of a settled petal of the given fading stage.
pub fn settled_color(stage: u8, base: NordColor, season: Season, mood: Mood) -> (res: NordColor)
    requires
        stage < 5,
    ensures
        res == settled_color_of(stage, base, season, mood),
{
    if stage == 0 {
        base
    } else if stage == 1 {
        match season {
            Season::Spring | Season::Auto => NordColor::BlossomRose,
            Season::Summer => NordColor::SeaTeal,
            Season::Autumn => NordColor::AuroraOrange,
            Season::Winter => NordColor::NordFrostCyan,
        }
    } else if stage == 2 {
        match season {
            Season::Spring | Season::Auto => NordColor::DuskMauve,
            Season::Summer => NordColor::PineTeal,
            Season::Autumn => NordColor::AmberBronze,
            Season::Winter => NordColor::ArcticBlue,
        }
    } else if stage == 3 {
        match mood {
            Mood::Night => NordColor::ArcticBlue,
            Mood::Day => NordColor::GlacialBlue,
        }
    } else {
        match mood {
            Mood::Night => NordColor::PolarSlateBright,
            Mood::Day => NordColor::PolarSlateMed,
        }
    }
}

/// The colour of a falling foreground petal by height band, 0 the lowest
/// (nearest the ground): seasonal highlights near the ground, its own colour
/// up high.
pub open spec fn altitude_color_of(band: u8, base: NordColor, season: Season) -> NordColor {
    if band == 0 {
        match season {
            Season::Spring | Season::Auto => NordColor::SakuraMist,
            Season::Summer => NordColor::GoldChampagne,
            Season::Autumn => NordColor::HoneyGold,
            Season::Winter => NordColor::SnowWhite,
        }
    } else if band == 1 {
        match season {
            Season::Spring | Season::Auto => NordColor::WisteriaViolet,
            Season::Summer => NordColor::AuroraYellow,
            Season::Autumn => NordColor::GoldenOchre,
            Season::Winter => NordColor::GlacialMist,
        }
    } else if band == 2 {
        match season {
            Season::Spring | Season::Auto => NordColor::SoftFrostTeal,
            Season::Summer => NordColor::NordFrostTeal,
            Season::Autumn => NordColor::AuroraOrange,
            Season::Winter => NordColor::NordFrostCyan,
        }
    } else {
        base
    }
}

/// The colour of a falling foreground petal in the given height band.
pub fn altitude_color(band: u8, base: NordColor, season: Season) -> (res: NordColor)
    requires
        band < 4,
    ensures
        res == altitude_color_of(band, base, season),
{
    if band == 0 {
        match season {
            Season::Spring | Season::Auto => NordColor::SakuraMist,
            Season::Summer => NordColor::GoldChampagne,
            Season::Autumn => NordColor::HoneyGold,
            Season::Winter => NordColor::SnowWhite,
        }
    } else if band == 1 {
        match season {
            Season::Spring | Season::Auto => NordColor::WisteriaViolet,
            Season::Summer => NordColor::AuroraYellow,
            Season::Autumn => NordColor::GoldenOchre,
            Season::Winter => NordColor::GlacialMist,
        }
    } else if band == 2 {
        match season {
            Season::Spring | Season::Auto => NordColor::SoftFrostTeal,
            Season::Summer => NordColor::NordFrostTeal,
            Season::Autumn => NordColor::AuroraOrange,
            Season::Winter => NordColor::NordFrostCyan,
        }
    } else {
        base
    }
}

/// The distance-shaded colour of background petals.
pub fn background_petal_color(mood: Mood) -> (res: NordColor)
    ensures
        res == (match mood {
            Mood::Night => NordColor::ArcticBlue,
            Mood::Day => NordColor::SeaTeal,
        }),
{
    match mood {
        Mood::Night => NordColor::ArcticBlue,
        Mood::Day => NordColor::SeaTeal,
    }
}

/// The colour of a foreground weather particle; a snowflake glints when
/// `bright`.
pub open spec fn fx_color_of(kind: WeatherFxKind, mood: Mood, bright: bool) -> NordColor {
    match kind {
        WeatherFxKind::RainDrop => match mood {
            Mood::Night => NordColor::GlacialBlue,
            Mood::Day => NordColor::ArcticBlue,
        },
        WeatherFxKind::RainSplash => NordColor::GlacialMist,
        WeatherFxKind::SnowFlake => if bright {
            NordColor::SnowWhite
        } else {
            NordColor::SnowMist
        },
        WeatherFxKind::SunGlimmer => match mood {
            Mood::Night => NordColor::GlacialMist,
            Mood::Day => NordColor::GoldChampagne,
        },
        _ => NordColor::NordFrostCyan,
    }
}

/// The colour of a foreground weather particle.
pub fn fx_color(kind: WeatherFxKind, mood: Mood, bright: bool) -> (res: NordColor)
    ensures
        res == fx_color_of(kind, mood, bright),
{
    match kind {
        WeatherFxKind::RainDrop => match mood {
            Mood::Night => NordColor::GlacialBlue,
            Mood::Day => NordColor::ArcticBlue,
        },
        WeatherFxKind::RainSplash => NordColor::GlacialMist,
        WeatherFxKind::SnowFlake => {
            if bright {
                NordColor::SnowWhite
            } else {
                NordColor::SnowMist
            }
        },
        WeatherFxKind::SunGlimmer => match mood {
            Mood::Night => NordColor::GlacialMist,
            Mood::Day => NordColor::GoldChampagne,
        },
        _ => NordColor::NordFrostCyan,
    }
}

/// Whether a weather particle is drawn behind the tree (fog and clouds).
pub fn is_background_fx(kind: WeatherFxKind) -> (res: bool)
    ensures
        res == (kind == WeatherFxKind::FogWisp || kind == WeatherFxKind::CloudWisp),
{
    match kind {
        WeatherFxKind::FogWisp | WeatherFxKind::CloudWisp => true,
        _ => false,
    }
}

/// The colour of a wind streak by age tier, 0 the freshest.
pub open spec fn streak_color_of(tier: u8) -> NordColor {
    if tier == 0 {
        NordColor::GlacialMist
    } else if tier == 1 {
        NordColor::NordFrostCyan
    } else if tier == 2 {
        NordColor::GlacialBlue
    } else {
        NordColor::ArcticBlue
    }
}

/// The colour of a wind streak of the given age tier.
pub fn streak_color(tier: u8) -> (res: NordColor)
    requires
        tier < 4,
    ensures
        res == streak_color_of(tier),
{
    if tier == 0 {
        NordColor::GlacialMist
    } else if tier == 1 {
        NordColor::NordFrostCyan
    } else if tier == 2 {
        NordColor::GlacialBlue
    } else {
        NordColor::ArcticBlue
    }
}

/// A firefly by glow tier, 0 the brightest.
pub open spec fn firefly_glow_of(tier: u8) -> (char, NordColor) {
    if tier == 0 {
        ('✦', NordColor::GoldChampagne)
    } else if tier == 1 {
        ('*', NordColor::HoneyGold)
    } else {
        ('·', NordColor::SoftFrostTeal)
    }
}

/// The glyph and colour of a firefly of the given glow tier.
pub fn firefly_glow(tier: u8) -> (res: (char, NordColor))
    requires
        tier < 3,
    ensures
        res == firefly_glow_of(tier),
{
    if tier == 0 {
        ('✦', NordColor::GoldChampagne)
    } else if tier == 1 {
        ('*', NordColor::HoneyGold)
    } else {
        ('·', NordColor::SoftFrostTeal)
    }
}

/// A puddle's ripple by wave tier, 0 the crest.
pub open spec fn ripple_of(tier: u8) -> (char, NordColor) {
    if tier == 0 {
        ('≈', NordColor::GlacialMist)
    } else if tier == 1 {
        ('~', NordColor::NordFrostCyan)
    } else if tier == 2 {
        ('~', NordColor::GlacialBlue)
    } else {
        ('=', NordColor::ArcticBlue)
    }
}

/// The glyph and colour of a puddle cell of the given wave tier.
pub fn ripple(tier: u8) -> (res: (char, NordColor))
    requires
        tier < 4,
    ensures
        res == ripple_of(tier),
{
    if tier == 0 {
        ('≈', NordColor::GlacialMist)
    } else if tier == 1 {
        ('~', NordColor::NordFrostCyan)
    } else if tier == 2 {
        ('~', NordColor::GlacialBlue)
    } else {
        ('=', NordColor::ArcticBlue)
    }
}

/// The colour of a petal floating on a puddle by age tier, 0 the freshest.
pub fn floating_petal_color(tier: u8, base: NordColor) -> (res: NordColor)
    requires
        tier < 3,
    ensures
        res == (if tier == 0 {
            base
        } else if tier == 1 {
            NordColor::SoftFrostTeal
        } else {
            NordColor::NordFrostCyan
        }),
{
    if tier == 0 {
        base
    } else if tier == 1 {
        NordColor::SoftFrostTeal
    } else {
        NordColor::NordFrostCyan
    }
}

/// The three cells a bird is drawn with, left to right. A perched bird
/// faces its way and sings a note while chirping; a flying bird flaps
/// through three wing frames.
pub open spec fn bird_cells_of(state: BirdFlightState, facing_right: bool, chirping: bool, frame: usize) -> Seq<(char, NordColor)> {
    match state {
        BirdFlightState::Perched => if facing_right {
            if chirping {
                seq![('>', NordColor::AuroraGreen), ('o', NordColor::SnowWhite), ('♪', NordColor::HoneyGold)]
            } else {
                seq![('>', NordColor::AuroraGreen), ('•', NordColor::SnowWhite), ('>', NordColor::HoneyGold)]
            }
        } else {
            if chirping {
                seq![('♪', NordColor::HoneyGold), ('o', NordColor::SnowWhite), ('<', NordColor::AuroraGreen)]
            } else {
                seq![('<', NordColor::HoneyGold), ('•', NordColor::SnowWhite), ('<', NordColor::AuroraGreen)]
            }
        },
        _ => {
            let f = frame % 3;
            let (a, b, c) = if f == 0 {
                ('^', 'v', '^')
            } else if f == 1 {
                ('~', '•', '~')
            } else {
                ('v', '•', 'v')
            };
            seq![(a, NordColor::AuroraGreen), (b, NordColor::SnowWhite), (c, NordColor::AuroraGreen)]
        },
    }
}

/// The three cells a bird is drawn with.
pub fn bird_cells(state: BirdFlightState, facing_right: bool, chirping: bool, frame: usize) -> (res: [(char, NordColor); 3])
    ensures
        res@ == bird_cells_of(state, facing_right, chirping, frame),
{
    let res = match state {
        BirdFlightState::Perched => {
            if facing_right {
                if chirping {
                    [('>', NordColor::AuroraGreen), ('o', NordColor::SnowWhite), ('♪', NordColor::HoneyGold)]
                } else {
                    [('>', NordColor::AuroraGreen), ('•', NordColor::SnowWhite), ('>', NordColor::HoneyGold)]
                }
            } else {
                if chirping {
                    [('♪', NordColor::HoneyGold), ('o', NordColor::SnowWhite), ('<', NordColor::AuroraGreen)]
                } else {
                    [('<', NordColor::HoneyGold), ('•', NordColor::SnowWhite), ('<', NordColor::AuroraGreen)]
                }
            }
        },
        _ => {
            let f = frame % 3;
            let (a, b, c) = if f == 0 {
                ('^', 'v', '^')
            } else if f == 1 {
                ('~', '•', '~')
            } else {
                ('v', '•', 'v')
            };
            [(a, NordColor::AuroraGreen), (b, NordColor::SnowWhite), (c, NordColor::AuroraGreen)]
        },
    };
    assert(res@ =~= bird_cells_of(state, facing_right, chirping, frame));
    res
}

/// The starry sky shows at night when stars are switched on.
pub fn stars_visible(stars: bool, mood: Mood) -> (res: bool)
    ensures
        res == (stars && mood == Mood::Night),
{
    stars && mood == Mood::Night
}

/// Screens narrower than 10 columns or lower than 5 rows are left blank.
pub fn too_small_to_draw(width: u16, height: u16) -> (res: bool)
    ensures
        res == (width < 10 || height < 5),
{
    width < 10 || height < 5
}


/// Glow tiers fade: a higher tier of a star, a wind streak or a puddle
/// ripple is drawn in a darker colour than a lower one, and every tier
/// past the last looks like the last.
pub proof fn lemma_glow_tiers_fade(a: u8, b: u8)
    requires
        a < b,
    ensures
        b < 5 ==> brightness(star_glow_of(a).1) > brightness(star_glow_of(b).1),
        b < 4 ==> brightness(streak_color_of(a)) > brightness(streak_color_of(b)),
        b < 4 ==> brightness(ripple_of(a).1) > brightness(ripple_of(b).1),
        a >= 4 ==> star_glow_of(a) == star_glow_of(b),
        a >= 3 ==> streak_color_of(a) == streak_color_of(b) && ripple_of(a) == ripple_of(b),
        a >= 2 ==> firefly_glow_of(a) == firefly_glow_of(b),
{
}

/// The tier tables: stars `*` snow white, `+` glacial mist, then `.` in
/// soft frost teal, glacial blue and arctic blue; wind streaks glacial
/// mist, frost cyan, glacial blue, arctic blue; ripples `≈` glacial mist,
/// `~` frost cyan, `~` glacial blue, `=` arctic blue; fireflies `✦`
/// champagne, `*` honey gold, `·` soft frost teal.
pub proof fn lemma_tier_tables()
    ensures
        star_glow_of(0) == ('*', NordColor::SnowWhite),
        star_glow_of(1) == ('+', NordColor::GlacialMist),
        star_glow_of(2) == ('.', NordColor::SoftFrostTeal),
        star_glow_of(3) == ('.', NordColor::GlacialBlue),
        star_glow_of(4) == ('.', NordColor::ArcticBlue),
        streak_color_of(0) == NordColor::GlacialMist,
        streak_color_of(1) == NordColor::NordFrostCyan,
        streak_color_of(2) == NordColor::GlacialBlue,
        streak_color_of(3) == NordColor::ArcticBlue,
        ripple_of(0) == ('≈', NordColor::GlacialMist),
        ripple_of(1) == ('~', NordColor::NordFrostCyan),
        ripple_of(2) == ('~', NordColor::GlacialBlue),
        ripple_of(3) == ('=', NordColor::ArcticBlue),
        firefly_glow_of(0) == ('✦', NordColor::GoldChampagne),
        firefly_glow_of(1) == ('*', NordColor::HoneyGold),
        firefly_glow_of(2) == ('·', NordColor::SoftFrostTeal),
{
}

/// A settled petal keeps its own colour while fresh, then takes two
/// shades of its season's hue (blossom pink in spring and `Auto`, greens
/// in summer, reds in autumn, blues in winter), the second darker than the
/// first and neither depending on the mood; then a blue and last a slate
/// that depend on the mood alone, the slate darker than the blue.
pub proof fn lemma_settled_petals_fade(base: NordColor, season: Season, mood: Mood, other_season: Season, other_mood: Mood)
    ensures
        settled_color_of(0, base, season, mood) == base,
        brightness(settled_color_of(2, base, season, mood)) < brightness(settled_color_of(1, base, season, mood)),
        brightness(settled_color_of(4, base, season, mood)) < brightness(settled_color_of(3, base, season, mood)),
        settled_color_of(1, base, season, mood) == settled_color_of(1, base, season, other_mood),
        settled_color_of(2, base, season, mood) == settled_color_of(2, base, season, other_mood),
        settled_color_of(3, base, season, mood) == settled_color_of(3, base, other_season, mood),
        settled_color_of(4, base, season, mood) == settled_color_of(4, base, other_season, mood),
        (season == Season::Spring || season == Season::Auto) ==> {
            &&& rgb_of(settled_color_of(1, base, season, mood)).0 > rgb_of(settled_color_of(1, base, season, mood)).1
            &&& rgb_of(settled_color_of(2, base, season, mood)).2 > rgb_of(settled_color_of(2, base, season, mood)).1
        },
        season == Season::Summer ==> {
            &&& rgb_of(settled_color_of(1, base, season, mood)).1 > rgb_of(settled_color_of(1, base, season, mood)).0
            &&& rgb_of(settled_color_of(2, base, season, mood)).1 > rgb_of(settled_color_of(2, base, season, mood)).0
        },
        season == Season::Autumn ==> {
            &&& rgb_of(settled_color_of(1, base, season, mood)).0 > rgb_of(settled_color_of(1, base, season, mood)).1
            &&& rgb_of(settled_color_of(2, base, season, mood)).0 > rgb_of(settled_color_of(2, base, season, mood)).1
        },
        season == Season::Winter ==> {
            &&& rgb_of(settled_color_of(1, base, season, mood)).2 > rgb_of(settled_color_of(1, base, season, mood)).0
            &&& rgb_of(settled_color_of(2, base, season, mood)).2 > rgb_of(settled_color_of(2, base, season, mood)).0
        },
        settled_color_of(1, base, Season::Spring, mood) == NordColor::BlossomRose,
        settled_color_of(1, base, Season::Summer, mood) == NordColor::SeaTeal,
        settled_color_of(1, base, Season::Autumn, mood) == NordColor::AuroraOrange,
        settled_color_of(1, base, Season::Winter, mood) == NordColor::NordFrostCyan,
        settled_color_of(2, base, Season::Spring, mood) == NordColor::DuskMauve,
        settled_color_of(2, base, Season::Summer, mood) == NordColor::PineTeal,
        settled_color_of(2, base, Season::Autumn, mood) == NordColor::AmberBronze,
        settled_color_of(2, base, Season::Winter, mood) == NordColor::ArcticBlue,
        settled_color_of(3, base, season, Mood::Night) == NordColor::ArcticBlue,
        settled_color_of(3, base, season, Mood::Day) == NordColor::GlacialBlue,
        settled_color_of(4, base, season, Mood::Night) == NordColor::PolarSlateBright,
        settled_color_of(4, base, season, Mood::Day) == NordColor::PolarSlateMed,
{
}

/// A falling petal high up keeps its own colour; in the three bands near
/// the ground it takes the season's highlights (`Auto` as spring), which
/// do not depend on its colour.
pub proof fn lemma_altitude_colors(band: u8, base: NordColor, other: NordColor, season: Season)
    ensures
        band >= 3 ==> altitude_color_of(band, base, season) == base,
        band < 3 ==> altitude_color_of(band, base, season) == altitude_color_of(band, other, season),
        altitude_color_of(band, base, Season::Auto) == altitude_color_of(band, base, Season::Spring),
        altitude_color_of(0, base, Season::Spring) == NordColor::SakuraMist,
        altitude_color_of(0, base, Season::Summer) == NordColor::GoldChampagne,
        altitude_color_of(0, base, Season::Autumn) == NordColor::HoneyGold,
        altitude_color_of(0, base, Season::Winter) == NordColor::SnowWhite,
        altitude_color_of(1, base, Season::Spring) == NordColor::WisteriaViolet,
        altitude_color_of(1, base, Season::Summer) == NordColor::AuroraYellow,
        altitude_color_of(1, base, Season::Autumn) == NordColor::GoldenOchre,
        altitude_color_of(1, base, Season::Winter) == NordColor::GlacialMist,
        altitude_color_of(2, base, Season::Spring) == NordColor::SoftFrostTeal,
        altitude_color_of(2, base, Season::Summer) == NordColor::NordFrostTeal,
        altitude_color_of(2, base, Season::Autumn) == NordColor::AuroraOrange,
        altitude_color_of(2, base, Season::Winter) == NordColor::NordFrostCyan,
{
}

/// Grass is violet on a spring night and green on a spring day (`Auto` as
/// spring), green all summer, ochre in autumn and frosted in winter.
pub proof fn lemma_grass_colors(mood: Mood)
    ensures
        grass_color_of(Season::Auto, mood) == grass_color_of(Season::Spring, mood),
        grass_color_of(Season::Spring, Mood::Night) == NordColor::WisteriaViolet,
        grass_color_of(Season::Spring, Mood::Day) == NordColor::AuroraGreen,
        grass_color_of(Season::Summer, mood) == NordColor::AuroraGreen,
        grass_color_of(Season::Autumn, mood) == NordColor::GoldenOchre,
        grass_color_of(Season::Winter, mood) == NordColor::GlacialMist,
{
}

/// Weather particles: rain is glacial blue by night and arctic blue by
/// day, splashes glacial mist, a snowflake snow white when it glints (and
/// brighter than the snow mist it has otherwise), sun glimmers glacial mist
/// by night and champagne by day, fog and cloud wisps frost cyan.
pub proof fn lemma_fx_colors(mood: Mood, bright: bool)
    ensures
        fx_color_of(WeatherFxKind::RainDrop, Mood::Night, bright) == NordColor::GlacialBlue,
        fx_color_of(WeatherFxKind::RainDrop, Mood::Day, bright) == NordColor::ArcticBlue,
        fx_color_of(WeatherFxKind::RainSplash, mood, bright) == NordColor::GlacialMist,
        fx_color_of(WeatherFxKind::SnowFlake, mood, true) == NordColor::SnowWhite,
        fx_color_of(WeatherFxKind::SnowFlake, mood, false) == NordColor::SnowMist,
        brightness(fx_color_of(WeatherFxKind::SnowFlake, mood, true)) > brightness(
            fx_color_of(WeatherFxKind::SnowFlake, mood, false),
        ),
        fx_color_of(WeatherFxKind::SunGlimmer, Mood::Night, bright) == NordColor::GlacialMist,
        fx_color_of(WeatherFxKind::SunGlimmer, Mood::Day, bright) == NordColor::GoldChampagne,
        fx_color_of(WeatherFxKind::FogWisp, mood, bright) == NordColor::NordFrostCyan,
        fx_color_of(WeatherFxKind::CloudWisp, mood, bright) == NordColor::NordFrostCyan,
{
}

/// A perched bird facing left is its mirror image facing right: the cells
/// in reverse order with `>` and `<` swapped. A flying bird looks the same
/// whichever way it faces and whether or not it chirps, its wing beat
/// repeats every three frames, and its two wings match. Every bird has a
/// snow-white body between two cells.
pub proof fn lemma_bird_shapes(state: BirdFlightState, chirping: bool, frame: usize, facing: bool, other_facing: bool, other_chirping: bool)
    ensures
        bird_cells_of(state, facing, chirping, frame).len() == 3,
        bird_cells_of(state, facing, chirping, frame)[1].1 == NordColor::SnowWhite,
        state == BirdFlightState::Perched ==> forall|i: int|
            0 <= i < 3 ==> #[trigger] bird_cells_of(state, false, chirping, frame)[i] == mirrored(
                bird_cells_of(state, true, chirping, frame)[2 - i],
            ),
        state != BirdFlightState::Perched ==> {
            &&& bird_cells_of(state, facing, chirping, frame) == bird_cells_of(state, other_facing, other_chirping, frame)
            &&& frame + 3 <= usize::MAX ==> bird_cells_of(state, facing, chirping, frame) == bird_cells_of(
                state,
                facing,
                chirping,
                (frame + 3) as usize,
            )
            &&& bird_cells_of(state, facing, chirping, frame)[0] == bird_cells_of(state, facing, chirping, frame)[2]
        },
        bird_cells_of(BirdFlightState::Perched, true, true, frame) == seq![
            ('>', NordColor::AuroraGreen),
            ('o', NordColor::SnowWhite),
            ('♪', NordColor::HoneyGold),
        ],
        bird_cells_of(BirdFlightState::Perched, true, false, frame) == seq![
            ('>', NordColor::AuroraGreen),
            ('•', NordColor::SnowWhite),
            ('>', NordColor::HoneyGold),
        ],
{
    if state != BirdFlightState::Perched && frame + 3 <= usize::MAX {
        assert(((frame + 3) as usize) % 3 == frame % 3);
    }
}

/// A bird's cell seen in a mirror: `>` and `<` swap, all else stays.
pub open spec fn mirrored(cell: (char, NordColor)) -> (char, NordColor) {
    if cell.0 == '>' {
        ('<', cell.1)
    } else if cell.0 == '<' {
        ('>', cell.1)
    } else {
        cell
    }
}

} // verus!
