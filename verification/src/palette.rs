//! The Nord colour palette the scene is painted with, and the colour
//! choices for the tree, the seasons and the ground.

use vstd::prelude::*;
use crate::config::{Mood, Season};

verus! {

/// A colour of the scene's palette.
#[derive(Debug, Clone, Copy, PartialEq, Eq, Structural)]
pub enum NordColor {
    SakuraPurple,
    AuroraGreen,
    AuroraYellow,
    AuroraOrange,
    AuroraRed,
    GoldChampagne,
    HoneyGold,
    GoldenOchre,
    AmberBronze,
    GlacialMist,
    SoftFrostTeal,
    NordFrostTeal,
    NordFrostCyan,
    SeaTeal,
    PineTeal,
    GlacialBlue,
    ArcticBlue,
    SakuraMist,
    WisteriaViolet,
    BlossomRose,
    DuskMauve,
    ShadowPlum,
    PolarSlateBright,
    PolarSlateMed,
    PolarSlateDark,
    PolarNightBase,
    SnowWhite,
    SnowStorm,
    SnowMist,
}

/// The red, green and blue components of each palette colour.
pub open spec fn rgb_of(c: NordColor) -> (u8, u8, u8) {
    match c {
        NordColor::SakuraPurple => (180, 142, 173),
        NordColor::AuroraGreen => (163, 190, 140),
        NordColor::AuroraYellow => (235, 203, 139),
        NordColor::AuroraOrange => (208, 135, 112),
        NordColor::AuroraRed => (191, 97, 106),
        NordColor::GoldChampagne => (245, 224, 179),
        NordColor::HoneyGold => (223, 192, 124),
        NordColor::GoldenOchre => (201, 166, 93),
        NordColor::AmberBronze => (163, 129, 61),
        NordColor::GlacialMist => (194, 229, 228),
        NordColor::SoftFrostTeal => (168, 209, 208),
        NordColor::NordFrostTeal => (143, 188, 187),
        NordColor::NordFrostCyan => (136, 191, 208),
        NordColor::SeaTeal => (111, 158, 157),
        NordColor::PineTeal => (82, 126, 125),
        NordColor::GlacialBlue => (129, 161, 193),
        NordColor::ArcticBlue => (94, 129, 172),
        NordColor::SakuraMist => (216, 191, 212),
        NordColor::WisteriaViolet => (157, 146, 189),
        NordColor::BlossomRose => (194, 139, 159),
        NordColor::DuskMauve => (143, 108, 137),
        NordColor::ShadowPlum => (102, 73, 97),
        NordColor::PolarSlateBright => (76, 86, 106),
        NordColor::PolarSlateMed => (67, 76, 94),
        NordColor::PolarSlateDark => (59, 66, 82),
        NordColor::PolarNightBase => (46, 52, 64),
        NordColor::SnowWhite => (236, 239, 244),
        NordColor::SnowStorm => (229, 233, 240),
        NordColor::SnowMist => (216, 222, 233),
    }
}

/// The red, green and blue components written as a `0xRRGGBB` colour code.
pub open spec fn hex_rgb(code: u32) -> (u8, u8, u8) {
    ((code / 0x10000) as u8, ((code / 0x100) % 0x100) as u8, (code % 0x100) as u8)
}

/// How bright a palette colour is: the sum of its components.
pub open spec fn brightness(c: NordColor) -> int {
    rgb_of(c).0 + rgb_of(c).1 + rgb_of(c).2
}

/// Every palette colour has its published Nord colour code (the aurora,
/// frost, polar night and snow storm colours of the Nord palette, and the
/// blossom, gold and teal shades added to it).
pub proof fn lemma_palette_codes()
    ensures
        rgb_of(NordColor::SakuraPurple) == hex_rgb(0xB48EAD),
        rgb_of(NordColor::AuroraGreen) == hex_rgb(0xA3BE8C),
        rgb_of(NordColor::AuroraYellow) == hex_rgb(0xEBCB8B),
        rgb_of(NordColor::AuroraOrange) == hex_rgb(0xD08770),
        rgb_of(NordColor::AuroraRed) == hex_rgb(0xBF616A),
        rgb_of(NordColor::GoldChampagne) == hex_rgb(0xF5E0B3),
        rgb_of(NordColor::HoneyGold) == hex_rgb(0xDFC07C),
        rgb_of(NordColor::GoldenOchre) == hex_rgb(0xC9A65D),
        rgb_of(NordColor::AmberBronze) == hex_rgb(0xA3813D),
        rgb_of(NordColor::GlacialMist) == hex_rgb(0xC2E5E4),
        rgb_of(NordColor::SoftFrostTeal) == hex_rgb(0xA8D1D0),
        rgb_of(NordColor::NordFrostTeal) == hex_rgb(0x8FBCBB),
        rgb_of(NordColor::NordFrostCyan) == hex_rgb(0x88BFD0),
        rgb_of(NordColor::SeaTeal) == hex_rgb(0x6F9E9D),
        rgb_of(NordColor::PineTeal) == hex_rgb(0x527E7D),
        rgb_of(NordColor::GlacialBlue) == hex_rgb(0x81A1C1),
        rgb_of(NordColor::ArcticBlue) == hex_rgb(0x5E81AC),
        rgb_of(NordColor::SakuraMist) == hex_rgb(0xD8BFD4),
        rgb_of(NordColor::WisteriaViolet) == hex_rgb(0x9D92BD),
        rgb_of(NordColor::BlossomRose) == hex_rgb(0xC28B9F),
        rgb_of(NordColor::DuskMauve) == hex_rgb(0x8F6C89),
        rgb_of(NordColor::ShadowPlum) == hex_rgb(0x664961),
        rgb_of(NordColor::PolarSlateBright) == hex_rgb(0x4C566A),
        rgb_of(NordColor::PolarSlateMed) == hex_rgb(0x434C5E),
        rgb_of(NordColor::PolarSlateDark) == hex_rgb(0x3B4252),
        rgb_of(NordColor::PolarNightBase) == hex_rgb(0x2E3440),
        rgb_of(NordColor::SnowWhite) == hex_rgb(0xECEFF4),
        rgb_of(NordColor::SnowStorm) == hex_rgb(0xE5E9F0),
        rgb_of(NordColor::SnowMist) == hex_rgb(0xD8DEE9),
{
}

/// No two palette colours are the same colour.
pub proof fn lemma_palette_distinct(a: NordColor, b: NordColor)
    ensures
        a != b ==> rgb_of(a) != rgb_of(b),
{
}

impl NordColor {
    /// The colour's red, green and blue components.
    pub fn rgb(self) -> (res: (u8, u8, u8))
        ensures
            res == rgb_of(self),
    {
        match self {
            NordColor::SakuraPurple => (180, 142, 173),
            NordColor::AuroraGreen => (163, 190, 140),
            NordColor::AuroraYellow => (235, 203, 139),
            NordColor::AuroraOrange => (208, 135, 112),
            NordColor::AuroraRed => (191, 97, 106),
            NordColor::GoldChampagne => (245, 224, 179),
            NordColor::HoneyGold => (223, 192, 124),
            NordColor::GoldenOchre => (201, 166, 93),
            NordColor::AmberBronze => (163, 129, 61),
            NordColor::GlacialMist => (194, 229, 228),
            NordColor::SoftFrostTeal => (168, 209, 208),
            NordColor::NordFrostTeal => (143, 188, 187),
            NordColor::NordFrostCyan => (136, 191, 208),
            NordColor::SeaTeal => (111, 158, 157),
            NordColor::PineTeal => (82, 126, 125),
            NordColor::GlacialBlue => (129, 161, 193),
            NordColor::ArcticBlue => (94, 129, 172),
            NordColor::SakuraMist => (216, 191, 212),
            NordColor::WisteriaViolet => (157, 146, 189),
            NordColor::BlossomRose => (194, 139, 159),
            NordColor::DuskMauve => (143, 108, 137),
            NordColor::ShadowPlum => (102, 73, 97),
            NordColor::PolarSlateBright => (76, 86, 106),
            NordColor::PolarSlateMed => (67, 76, 94),
            NordColor::PolarSlateDark => (59, 66, 82),
            NordColor::PolarNightBase => (46, 52, 64),
            NordColor::SnowWhite => (236, 239, 244),
            NordColor::SnowStorm => (229, 233, 240),
            NordColor::SnowMist => (216, 222, 233),
        }
    }
}

/// A terminal cell colour: the terminal's default, or a true colour.
#[derive(Debug, Clone, Copy, PartialEq, Eq, Structural)]
pub enum CellColor {
    Reset,
    Rgb(u8, u8, u8),
}

/// The cell colour of a palette colour.
pub open spec fn cell_color_of(c: NordColor) -> CellColor {
    CellColor::Rgb(rgb_of(c).0, rgb_of(c).1, rgb_of(c).2)
}

/// The true colour of a palette colour.
pub fn to_cell_color(c: NordColor) -> (res: CellColor)
    ensures
        res == cell_color_of(c),
{
    let (r, g, b) = c.rgb();
    CellColor::Rgb(r, g, b)
}

/// The screen background of a mood.
pub open spec fn background_of(mood: Mood) -> NordColor {
    match mood {
        Mood::Night => NordColor::PolarNightBase,
        Mood::Day => NordColor::SnowStorm,
    }
}

/// The screen background of a mood: Polar Night by night, Snow Storm by day.
pub fn background_color(mood: Mood) -> (res: NordColor)
    ensures
        res == background_of(mood),
{
    match mood {
        Mood::Night => NordColor::PolarNightBase,
        Mood::Day => NordColor::SnowStorm,
    }
}

/// The eight blossom colours of a season (`Auto` paints as spring).
pub open spec fn seasonal_colors_of(season: Season) -> Seq<NordColor> {
    match season {
        Season::Spring | Season::Auto => seq![
            NordColor::SakuraMist,
            NordColor::SakuraPurple,
            NordColor::BlossomRose,
            NordColor::WisteriaViolet,
            NordColor::SoftFrostTeal,
            NordColor::NordFrostCyan,
            NordColor::GlacialMist,
            NordColor::SnowWhite,
        ],
        Season::Summer => seq![
            NordColor::AuroraGreen,
            NordColor::GoldChampagne,
            NordColor::HoneyGold,
            NordColor::AuroraYellow,
            NordColor::SoftFrostTeal,
            NordColor::NordFrostTeal,
            NordColor::SeaTeal,
            NordColor::NordFrostCyan,
        ],
        Season::Autumn => seq![
            NordColor::GoldChampagne,
            NordColor::HoneyGold,
            NordColor::AuroraYellow,
            NordColor::GoldenOchre,
            NordColor::AuroraOrange,
            NordColor::AuroraRed,
            NordColor::AmberBronze,
            NordColor::DuskMauve,
        ],
        Season::Winter => seq![
            NordColor::SnowWhite,
            NordColor::SnowStorm,
            NordColor::GlacialMist,
            NordColor::SoftFrostTeal,
            NordColor::NordFrostCyan,
            NordColor::GlacialBlue,
            NordColor::SeaTeal,
            NordColor::ArcticBlue,
        ],
    }
}

/// The night sky is Polar Night, darker than the Snow Storm of the day
/// screen.
pub proof fn lemma_backgrounds()
    ensures
        background_of(Mood::Night) == NordColor::PolarNightBase,
        background_of(Mood::Day) == NordColor::SnowStorm,
        brightness(background_of(Mood::Night)) < brightness(background_of(Mood::Day)),
{
}

/// Each season paints blossoms from eight different colours (`Auto` from
/// spring's): spring leads with its sakura mist and pink, summer with aurora
/// green and champagne, autumn with champagne and honey gold, winter with
/// snow white and snow storm.
pub proof fn lemma_seasonal_colors(season: Season)
    ensures
        seasonal_colors_of(season).len() == 8,
        forall|i: int, j: int|
            0 <= i < j < 8 ==> seasonal_colors_of(season)[i] != seasonal_colors_of(season)[j],
        seasonal_colors_of(Season::Auto) == seasonal_colors_of(Season::Spring),
        seasonal_colors_of(Season::Spring) == seq![
            NordColor::SakuraMist,
            NordColor::SakuraPurple,
            NordColor::BlossomRose,
            NordColor::WisteriaViolet,
            NordColor::SoftFrostTeal,
            NordColor::NordFrostCyan,
            NordColor::GlacialMist,
            NordColor::SnowWhite,
        ],
        seasonal_colors_of(Season::Summer) == seq![
            NordColor::AuroraGreen,
            NordColor::GoldChampagne,
            NordColor::HoneyGold,
            NordColor::AuroraYellow,
            NordColor::SoftFrostTeal,
            NordColor::NordFrostTeal,
            NordColor::SeaTeal,
            NordColor::NordFrostCyan,
        ],
        seasonal_colors_of(Season::Autumn) == seq![
            NordColor::GoldChampagne,
            NordColor::HoneyGold,
            NordColor::AuroraYellow,
            NordColor::GoldenOchre,
            NordColor::AuroraOrange,
            NordColor::AuroraRed,
            NordColor::AmberBronze,
            NordColor::DuskMauve,
        ],
        seasonal_colors_of(Season::Winter) == seq![
            NordColor::SnowWhite,
            NordColor::SnowStorm,
            NordColor::GlacialMist,
            NordColor::SoftFrostTeal,
            NordColor::NordFrostCyan,
            NordColor::GlacialBlue,
            NordColor::SeaTeal,
            NordColor::ArcticBlue,
        ],
{
}

/// The eight blossom colours of a season.
pub fn get_seasonal_colors(season: Season) -> (res: [NordColor; 8])
    ensures
        res@ == seasonal_colors_of(season),
{
    let res = match season {
        Season::Spring | Season::Auto => [
            NordColor::SakuraMist,
            NordColor::SakuraPurple,
            NordColor::BlossomRose,
            NordColor::WisteriaViolet,
            NordColor::SoftFrostTeal,
            NordColor::NordFrostCyan,
            NordColor::GlacialMist,
            NordColor::SnowWhite,
        ],
        Season::Summer => [
            NordColor::AuroraGreen,
            NordColor::GoldChampagne,
            NordColor::HoneyGold,
            NordColor::AuroraYellow,
            NordColor::SoftFrostTeal,
            NordColor::NordFrostTeal,
            NordColor::SeaTeal,
            NordColor::NordFrostCyan,
        ],
        Season::Autumn => [
            NordColor::GoldChampagne,
            NordColor::HoneyGold,
            NordColor::AuroraYellow,
            NordColor::GoldenOchre,
            NordColor::AuroraOrange,
            NordColor::AuroraRed,
            NordColor::AmberBronze,
            NordColor::DuskMauve,
        ],
        Season::Winter => [
            NordColor::SnowWhite,
            NordColor::SnowStorm,
            NordColor::GlacialMist,
            NordColor::SoftFrostTeal,
            NordColor::NordFrostCyan,
            NordColor::GlacialBlue,
            NordColor::SeaTeal,
            NordColor::ArcticBlue,
        ],
    };
    assert(res@ =~= seasonal_colors_of(season));
    res
}

} // verus!
