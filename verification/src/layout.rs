//! Screen layout helpers: centring text by its display width, centring a
//! box inside an area, the size of the about overlay, and the status line.

use vstd::prelude::*;
use unicode_width::UnicodeWidthStr;
use crate::config::{Season, lemma_season_spellings, season_named};

verus! {

/// The display width, in terminal columns, that `unicode-width` gives a
/// string.
pub uninterp spec fn display_width(s: Seq<char>) -> usize;

/// `UnicodeWidthStr::width` of the `unicode-width` crate: the number of
/// columns the string takes on a terminal. Its value is a function of the
/// string alone, named `display_width`; nothing more about it is stated.
#[verifier::external_body]
fn str_display_width(s: &str) -> (res: usize)
    ensures
        res == display_width(s@),
{
    s.width()
}

/// `n` spaces.
pub open spec fn spaces(n: nat) -> Seq<char> {
    Seq::new(n, |_i: int| ' ')
}

/// `s`, `width` columns wide, centred in `total_width` columns: padded with
/// spaces, the extra one going to the right; text at least as wide as the
/// field is left as it is.
pub open spec fn centered(s: Seq<char>, width: int, total_width: int) -> Seq<char> {
    if width >= total_width {
        s
    } else {
        let pad = total_width - width;
        let left = pad / 2;
        spaces(left as nat) + s + spaces((pad - left) as nat)
    }
}

/// Centring never shortens text: a narrower text gains exactly the columns
/// it lacks, split so the right side gets the odd one; a text at least as
/// wide as the field is unchanged.
pub proof fn lemma_centered_padding(s: Seq<char>, width: int, total_width: int)
    ensures
        width >= total_width ==> centered(s, width, total_width) == s,
        width < total_width ==> {
            let c = centered(s, width, total_width);
            let left = (total_width - width) / 2;
            &&& c.len() == s.len() + (total_width - width)
            &&& c.subrange(left, left + s.len()) == s
            &&& forall|i: int| 0 <= i < left ==> c[i] == ' '
            &&& forall|i: int| left + s.len() <= i < c.len() ==> c[i] == ' '
            &&& (c.len() - s.len() - left) - left <= 1
            &&& (c.len() - s.len() - left) >= left
        },
{
    if width < total_width {
        let pad = total_width - width;
        let left = pad / 2;
        let c = centered(s, width, total_width);
        assert(c.subrange(left, left + s.len()) =~= s);
    }
}

/// Appends `n` spaces.
fn push_spaces(out: &mut String, n: usize)
    ensures
        final(out)@ == old(out)@ + spaces(n as nat),
{
    let mut i: usize = 0;
    while i < n
        invariant
            i <= n,
            out@ == old(out)@ + spaces(i as nat),
        decreases n - i,
    {
        let ghost before = out@;
        proof {
            reveal_strlit(" ");
        }
        out.append(" ");
        assert(out@ =~= old(out)@ + spaces((i + 1) as nat));
        i = i + 1;
    }
}

/// Centres `s`, whose display width is `width`, in `total_width` columns.
pub fn pad_centered(s: &str, width: usize, total_width: usize) -> (res: String)
    ensures
        res@ == centered(s@, width as int, total_width as int),
{
    if width >= total_width {
        return String::from_str(s);
    }
    let pad = total_width - width;
    let left = pad / 2;
    let right = pad - left;
    let mut out = String::new();
    push_spaces(&mut out, left);
    out.append(s);
    push_spaces(&mut out, right);
    assert(out@ =~= centered(s@, width as int, total_width as int));
    out
}

/// Centres `s` by its display width in `total_width` columns.
pub fn center_glyph_text(s: &str, total_width: usize) -> (res: String)
    ensures
        res@ == centered(s@, display_width(s@) as int, total_width as int),
{
    let w = str_display_width(s);
    pad_centered(s, w, total_width)
}

/// A rectangle of terminal cells.
#[derive(Debug, Clone, Copy, PartialEq, Eq, Structural)]
pub struct Area {
    pub x: u16,
    pub y: u16,
    pub width: u16,
    pub height: u16,
}

/// A box `width` by `height` centred in `area` (rounding towards the top
/// left) and cut down to fit in it.
pub open spec fn centered_in(width: u16, height: u16, area: Area) -> Area {
    let vm = if area.height > height {
        (area.height - height) / 2
    } else {
        0
    };
    let hm = if area.width > width {
        (area.width - width) / 2
    } else {
        0
    };
    Area {
        x: (area.x + hm) as u16,
        y: (area.y + vm) as u16,
        width: if width < area.width {
            width
        } else {
            area.width
        },
        height: if height < area.height {
            height
        } else {
            area.height
        },
    }
}

/// Whether the margins that centre a box of this size in `area` keep the
/// box's corner within the range of a screen coordinate.
pub open spec fn margins_fit(width: u16, height: u16, area: Area) -> bool {
    &&& area.width > width ==> area.x + (area.width - width) / 2 <= u16::MAX
    &&& area.height > height ==> area.y + (area.height - height) / 2 <= u16::MAX
}

/// Centres a box of the given size in `area`.
pub fn centered_rect(width: u16, height: u16, area: Area) -> (res: Area)
    requires
        margins_fit(width, height, area),
    ensures
        res == centered_in(width, height, area),
        res.x >= area.x,
        res.y >= area.y,
        res.x + res.width <= area.x + area.width,
        res.y + res.height <= area.y + area.height,
{
    let vertical_margin = if area.height > height {
        (area.height - height) / 2
    } else {
        0
    };
    let horizontal_margin = if area.width > width {
        (area.width - width) / 2
    } else {
        0
    };
    Area {
        x: area.x + horizontal_margin,
        y: area.y + vertical_margin,
        width: if width < area.width {
            width
        } else {
            area.width
        },
        height: if height < area.height {
            height
        } else {
            area.height
        },
    }
}

/// The number of keyboard shortcuts the about overlay lists.
pub open spec fn about_shortcut_count() -> int {
    8
}

/// The lines of the about overlay: title, credits, the shortcuts header,
/// the shortcuts, and on a tall screen a blank line before and after the
/// header.
pub open spec fn about_lines(area_height: u16) -> int {
    if area_height < 18 {
        3 + about_shortcut_count()
    } else {
        5 + about_shortcut_count()
    }
}

/// The width of the about overlay: 58 columns, at most the area's width
/// less 4.
pub open spec fn about_width(area: Area) -> u16 {
    let w = if area.width >= 4 {
        area.width - 4
    } else {
        0
    };
    if 58 < w {
        58
    } else {
        w as u16
    }
}

/// The height of the about overlay: its lines plus a border, at most the
/// area's height less 2.
pub open spec fn about_height(area: Area) -> u16 {
    let h = if area.height >= 2 {
        area.height - 2
    } else {
        0
    };
    if about_lines(area.height) + 2 < h {
        (about_lines(area.height) + 2) as u16
    } else {
        h as u16
    }
}

/// Where the about overlay is drawn: its width and height, centred in the
/// area.
pub open spec fn about_area_in(area: Area) -> Area {
    centered_in(about_width(area), about_height(area), area)
}

/// The number of lines of the about overlay on a screen of this height.
pub fn about_line_count(area_height: u16) -> (res: u16)
    ensures
        res as int == about_lines(area_height),
{
    if area_height < 18 {
        11
    } else {
        13
    }
}

/// Where the about overlay is drawn in `area`.
pub fn about_modal_area(area: Area) -> (res: Area)
    requires
        margins_fit(about_width(area), about_height(area), area),
    ensures
        res == about_area_in(area),
{
    let modal_width = if 58 < area.width.saturating_sub(4) {
        58
    } else {
        area.width.saturating_sub(4)
    };
    let lines = about_line_count(area.height) + 2;
    let max_h = area.height.saturating_sub(2);
    let modal_height = if lines < max_h {
        lines
    } else {
        max_h
    };
    centered_rect(modal_width, modal_height, area)
}

/// A centred box is the size asked for, cut down to the area; it lies
/// inside the area, and the space left over is split evenly, the odd
/// column going to the right and the odd row below.
pub proof fn lemma_centered_box(width: u16, height: u16, area: Area)
    requires
        margins_fit(width, height, area),
    ensures
        centered_in(width, height, area).width == (if width < area.width {
            width
        } else {
            area.width
        }),
        centered_in(width, height, area).height == (if height < area.height {
            height
        } else {
            area.height
        }),
        area.x <= centered_in(width, height, area).x,
        area.y <= centered_in(width, height, area).y,
        centered_in(width, height, area).x + centered_in(width, height, area).width <= area.x + area.width,
        centered_in(width, height, area).y + centered_in(width, height, area).height <= area.y + area.height,
        ({
            let b = centered_in(width, height, area);
            let left = b.x - area.x;
            let right = (area.x + area.width) - (b.x + b.width);
            left <= right <= left + 1
        }),
        ({
            let b = centered_in(width, height, area);
            let top = b.y - area.y;
            let bottom = (area.y + area.height) - (b.y + b.height);
            top <= bottom <= top + 1
        }),
{
}

/// The about overlay is 58 columns wide when the screen has room for it
/// and 4 columns to spare, else the screen's width less 4; it is 15 rows
/// high (13 lines and a border) on screens of 18 rows or more, 13 rows
/// (11 lines) on screens of 16 or 17 rows, and the screen's height less 2
/// on smaller ones; and it lies inside the screen.
pub proof fn lemma_about_box(area: Area)
    requires
        margins_fit(about_width(area), about_height(area), area),
    ensures
        area.width >= 62 ==> about_area_in(area).width == 58,
        4 <= area.width < 62 ==> about_area_in(area).width == area.width - 4,
        area.height >= 18 ==> about_area_in(area).height == 15,
        16 <= area.height < 18 ==> about_area_in(area).height == 13,
        2 <= area.height < 16 ==> about_area_in(area).height == area.height - 2,
        area.x <= about_area_in(area).x,
        area.y <= about_area_in(area).y,
        about_area_in(area).x + about_area_in(area).width <= area.x + area.width,
        about_area_in(area).y + about_area_in(area).height <= area.y + area.height,
{
    lemma_centered_box(about_width(area), about_height(area), area);
}

/// The name of a season as the status line shows it.
pub open spec fn season_name(season: Season) -> Seq<char> {
    match season {
        Season::Spring => "Spring"@,
        Season::Summer => "Summer"@,
        Season::Autumn => "Autumn"@,
        Season::Winter => "Winter"@,
        Season::Auto => "Auto"@,
    }
}

/// The status line names each season by its capitalised name, which the
/// `--season` option reads back as that same season (`Auto` included, as
/// no season is spelt "Auto"); so no two seasons share a label.
pub proof fn lemma_season_labels(season: Season, other: Season)
    ensures
        season_named(Some(season_name(season))) == season,
        season != other ==> season_name(season) != season_name(other),
        season_name(Season::Spring) == "Spring"@,
        season_name(Season::Summer) == "Summer"@,
        season_name(Season::Autumn) == "Autumn"@,
        season_name(Season::Winter) == "Winter"@,
        season_name(Season::Auto) == "Auto"@,
{
    lemma_label_read_back(season);
    lemma_label_read_back(other);
}

/// A season's label, read as a `--season` value, gives the season back.
proof fn lemma_label_read_back(season: Season)
    ensures
        season_named(Some(season_name(season))) == season,
{
    let t = season_name(season);
    lemma_season_spellings(t);
    reveal_strlit("Spring");
    reveal_strlit("Summer");
    reveal_strlit("Autumn");
    reveal_strlit("Winter");
    reveal_strlit("Auto");
    reveal_strlit("spring");
    reveal_strlit("summer");
    reveal_strlit("autumn");
    reveal_strlit("fall");
    reveal_strlit("Fall");
    reveal_strlit("winter");
    match season {
        Season::Auto => {
            assert(t[0] == 'A' && t.len() == 4 && t[1] == 'u');
            assert(t != "spring"@ && t != "Spring"@ && t != "summer"@ && t != "Summer"@);
            assert(t != "autumn"@ && t != "Autumn"@ && t != "fall"@ && t != "Fall"@);
            assert(t != "winter"@ && t != "Winter"@);
        },
        _ => {},
    }
}

/// The name of a season as the status line shows it.
pub fn season_label(season: Season) -> (res: &'static str)
    ensures
        res@ == season_name(season),
{
    match season {
        Season::Spring => "Spring",
        Season::Summer => "Summer",
        Season::Autumn => "Autumn",
        Season::Winter => "Winter",
        Season::Auto => "Auto",
    }
}

/// The separator between the fields of the status line.
pub open spec fn status_separator() -> Seq<char> {
    "  │  "@
}

/// The status line: the date, the weather and the season's name, separated
/// by `  │  `.
pub fn status_line(date: &str, weather: &str, season: Season) -> (res: String)
    ensures
        res@ == date@ + status_separator() + weather@ + status_separator() + season_name(season),
{
    let mut out = String::from_str(date);
    out.append("  │  ");
    out.append(weather);
    out.append("  │  ");
    out.append(season_label(season));
    out
}

/// The banner the status bar shows while a message is fresh.
pub fn feedback_banner(message: &str) -> (res: String)
    ensures
        res@ == "─── [ "@ + message@ + " ] ───"@,
{
    let mut out = String::from_str("─── [ ");
    out.append(message);
    out.append(" ] ───");
    out
}

/// Whether the status line must be put together again: the clock has
/// moved on to another second, or the season shown has changed.
pub fn status_stale(last_sec: i64, cur_sec: i64, last_season: Option<Season>, season: Season) -> (res: bool)
    ensures
        res == (last_sec != cur_sec || last_season != Some(season)),
{
    last_sec != cur_sec || !(match last_season {
        Some(s) => s == season,
        None => false,
    })
}

} // verus!
