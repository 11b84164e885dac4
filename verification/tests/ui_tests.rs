use bloom_rust::art::parse_art;
use bloom_rust::config::{Mood, Season};
use bloom_rust::layout::{about_modal_area, center_glyph_text, centered_rect, feedback_banner, season_label, status_line, Area};
use bloom_rust::palette::{get_seasonal_colors, CellColor, NordColor};
use bloom_rust::shading::{tree_char_shade, CanopyCell, CharClass, TreeColorCache, TreeShade};

fn flat_canopy(cell: CanopyCell) -> CellColor {
    let (r, g, b) = cell.stops.core.rgb();
    CellColor::Rgb(r, g, b)
}

#[test]
fn test_tree_color_cache() {
    let mut cache = TreeColorCache::default();
    let grid = vec![vec!['#', ' ', '*']];
    let colors1 = cache.get_or_compute(&grid, Season::Spring, Mood::Night, flat_canopy).to_vec();
    assert_eq!(colors1.len(), 1);
    assert_eq!(colors1[0].len(), 3);
    assert_eq!(colors1[0][1], CellColor::Reset);

    // Fetching again with same parameters uses cache
    let colors2 = cache.get_or_compute(&grid, Season::Spring, Mood::Night, flat_canopy);
    assert_eq!(colors1[0], colors2[0]);
}

#[test]
fn cache_recomputes_for_new_mood() {
    let mut cache = TreeColorCache::new();
    let grid: Vec<Vec<char>> = (0..10).map(|_| vec!['#']).collect();
    let night = cache.get_or_compute(&grid, Season::Summer, Mood::Night, flat_canopy).to_vec();
    let day = cache.get_or_compute(&grid, Season::Summer, Mood::Day, flat_canopy).to_vec();
    // row 9 of 10 is trunk: slate by night, deeper slate by day
    assert_eq!(night[9][0], CellColor::Rgb(76, 86, 106));
    assert_eq!(day[9][0], CellColor::Rgb(67, 76, 94));
    // row 5 of 10 is lower branches: pine teal in summer
    assert_eq!(day[5][0], CellColor::Rgb(82, 126, 125));
    // row 0 is canopy, coloured by the gradient function
    assert_eq!(day[0][0], CellColor::Rgb(82, 126, 125));
}

#[test]
fn tree_zones_and_shades() {
    assert_eq!(tree_char_shade('#', 60, 100, Season::Spring, Mood::Night), TreeShade::Solid(NordColor::PolarSlateBright));
    assert_eq!(tree_char_shade('*', 59, 100, Season::Autumn, Mood::Day), TreeShade::Solid(NordColor::AuroraRed));
    assert_eq!(tree_char_shade('o', 48, 100, Season::Winter, Mood::Day), TreeShade::Solid(NordColor::GlacialMist));
    match tree_char_shade('@', 47, 100, Season::Auto, Mood::Day) {
        TreeShade::Canopy(class, stops) => {
            assert_eq!(class, CharClass::Heavy);
            assert_eq!(stops.core, NordColor::ArcticBlue);
            assert_eq!(stops.rim, NordColor::SnowWhite);
        }
        _ => panic!("expected canopy"),
    }
}

#[test]
fn seasonal_colors_and_rgb() {
    assert_eq!(get_seasonal_colors(Season::Winter)[0], NordColor::SnowWhite);
    assert_eq!(get_seasonal_colors(Season::Auto), get_seasonal_colors(Season::Spring));
    assert_eq!(NordColor::SakuraPurple.rgb(), (180, 142, 173));
    assert_eq!(NordColor::PolarNightBase.rgb(), (46, 52, 64));
}

#[test]
fn center_glyph_text_pads_by_display_width() {
    assert_eq!(center_glyph_text("ab", 6), "  ab  ");
    assert_eq!(center_glyph_text("abc", 6), " abc  ");
    assert_eq!(center_glyph_text("中", 6), "  中  ");
    assert_eq!(center_glyph_text("toolong", 3), "toolong");
    assert_eq!(center_glyph_text("", 0), "");
}

#[test]
fn centered_rect_fits_area() {
    let area = Area { x: 0, y: 0, width: 80, height: 24 };
    assert_eq!(centered_rect(58, 14, area), Area { x: 11, y: 5, width: 58, height: 14 });
    assert_eq!(centered_rect(100, 30, area), Area { x: 0, y: 0, width: 80, height: 24 });
    let small = Area { x: 2, y: 3, width: 40, height: 12 };
    assert_eq!(about_modal_area(small), Area { x: 4, y: 4, width: 36, height: 10 });
    assert_eq!(about_modal_area(area), Area { x: 11, y: 4, width: 58, height: 15 });
}

#[test]
fn status_text() {
    assert_eq!(season_label(Season::Autumn), "Autumn");
    assert_eq!(status_line("Monday 01/01/2024", "Offline Mode", Season::Winter), "Monday 01/01/2024  │  Offline Mode  │  Winter");
    assert_eq!(feedback_banner("Wind Gust Surge Triggered"), "─── [ Wind Gust Surge Triggered ] ───");
}

#[test]
fn art_text_becomes_rows() {
    assert_eq!(parse_art("ab\r\ncd\n\nx\n"), vec![vec!['a', 'b'], vec!['c', 'd'], vec![], vec!['x']]);
    assert_eq!(parse_art(""), Vec::<Vec<char>>::new());
    assert_eq!(parse_art("\n"), vec![Vec::<char>::new()]);
    assert_eq!(parse_art(" #@\r"), vec![vec![' ', '#', '@']]);
    for (text, expected) in [("a\nb", 2usize), ("a\n\nb\n", 3), ("\r\n\r\n", 2)] {
        assert_eq!(parse_art(text), text.lines().map(|l| l.chars().collect::<Vec<char>>()).collect::<Vec<_>>());
        assert_eq!(parse_art(text).len(), expected);
    }
}

#[test]
fn centering_near_the_end_of_the_coordinate_range() {
    let area = Area { x: 65000, y: 65500, width: 1000, height: 100 };
    assert_eq!(centered_rect(998, 96, area), Area { x: 65001, y: 65502, width: 998, height: 96 });
    assert_eq!(centered_rect(2000, 200, area), Area { x: 65000, y: 65500, width: 1000, height: 100 });
}
