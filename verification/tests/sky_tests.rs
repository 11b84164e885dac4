use bloom_rust::physics::{
    current_glyph, feedback_is_fresh, gust_streak_glyphs, is_branch_at, new_petal_color_index, new_petal_glyph,
    next_flight_state, perch_cell, startled, tree_cell_at, tree_layout, BirdFlightState, LeafState, ParallaxLayer,
};
use bloom_rust::scene::{altitude_color, bird_cells, settled_color, star_glow};
use bloom_rust::config::{Mood, Season};
use bloom_rust::palette::NordColor;
use bloom_rust::stars::{star_count, StarrySky};
use bloom_rust::tree::{art_width, branch_perches};

#[test]
fn star_counts() {
    assert_eq!(star_count(80, 24), 48);
    assert_eq!(star_count(10, 10), 20);
    assert_eq!(star_count(400, 100), 150);
    assert_eq!(star_count(0, 0), 20);
}

#[test]
fn stars_stay_in_the_sky() {
    let sky = StarrySky::new(80, 24);
    assert_eq!(sky.stars.len(), 48);
    for &(x, y) in &sky.stars {
        assert!(x < 80 && y < 22);
    }
    let tiny = StarrySky::new(0, 2);
    assert_eq!(tiny.stars.len(), 20);
    assert!(tiny.stars.iter().all(|&(x, y)| x == 0 && y == 0));
}

#[test]
fn resizing_the_sky() {
    let mut sky = StarrySky::new(80, 24);
    let before = sky.stars.clone();
    assert!(!sky.resize(80, 24));
    assert_eq!(sky.stars, before);
    assert!(sky.resize(400, 100));
    assert_eq!(sky.stars.len(), 150);
}

#[test]
fn tumbling_petal_glyphs() {
    assert_eq!(current_glyph(LeafState::Falling, 'o', ParallaxLayer::Foreground, 0), '*');
    assert_eq!(current_glyph(LeafState::Falling, 'o', ParallaxLayer::Foreground, 3), '\\');
    assert_eq!(current_glyph(LeafState::Falling, 'o', ParallaxLayer::Foreground, 8), '*');
    assert_eq!(current_glyph(LeafState::Falling, 'o', ParallaxLayer::Background, 5), '·');
    assert_eq!(current_glyph(LeafState::Falling, 'o', ParallaxLayer::Background, 7), '+');
    assert_eq!(current_glyph(LeafState::Attached, 'o', ParallaxLayer::Foreground, 3), 'o');
    assert_eq!(current_glyph(LeafState::Settled, '#', ParallaxLayer::Background, 3), '#');
}

#[test]
fn bird_flight() {
    assert_eq!(next_flight_state(BirdFlightState::FlyingIn, true, true, true), BirdFlightState::Perched);
    assert_eq!(next_flight_state(BirdFlightState::FlyingIn, false, true, true), BirdFlightState::FlyingIn);
    assert_eq!(next_flight_state(BirdFlightState::Perched, false, true, false), BirdFlightState::FlyingOut);
    assert_eq!(next_flight_state(BirdFlightState::Perched, false, false, true), BirdFlightState::FlyingOut);
    assert_eq!(next_flight_state(BirdFlightState::Perched, true, false, false), BirdFlightState::Perched);
    assert_eq!(next_flight_state(BirdFlightState::FlyingOut, true, false, false), BirdFlightState::FlyingOut);
    assert_eq!(startled(BirdFlightState::Perched), BirdFlightState::FlyingOut);
    assert_eq!(startled(BirdFlightState::FlyingIn), BirdFlightState::FlyingIn);
}

#[test]
fn tree_placement() {
    let layout = tree_layout(80, 24, 40, 20);
    assert!(layout.one_to_one);
    assert_eq!((layout.offset_x, layout.offset_y, layout.target_height), (20, 3, 23));
    assert!(!tree_layout(80, 10, 40, 20).one_to_one);
    assert_eq!(tree_cell_at(layout, 25, 10), Some((7, 5)));
    assert_eq!(tree_cell_at(layout, 19, 10), None);
    assert_eq!(perch_cell(layout, 7, 5), (25, 9));
}

#[test]
fn perches_on_open_branches() {
    let mut grid: Vec<Vec<char>> = (0..20).map(|_| vec![' '; 12]).collect();
    grid[8][3] = '#';
    grid[9][3] = '#';
    grid[10][5] = '=';
    grid[2][1] = '@';
    grid[16][4] = '%';
    assert_eq!(branch_perches(&grid), vec![(8, 3), (10, 5)]);
    let narrow: Vec<Vec<char>> = (0..20).map(|_| vec!['#'; 10]).collect();
    assert!(branch_perches(&narrow).is_empty());
    assert_eq!(art_width(&vec![]), 80);
    assert_eq!(art_width(&vec![vec!['a'; 3], vec!['b'; 7]]), 7);
    assert!(is_branch_at(&grid, 9, 3));
    assert!(!is_branch_at(&grid, 9, 4));
    assert!(!is_branch_at(&grid, 40, 3));
}

#[test]
fn random_petal_choices() {
    for _ in 0..50 {
        assert!(['*', '+', '.', 'o', '%', '#', '·'].contains(&new_petal_glyph()));
        assert!(new_petal_color_index() < 8);
    }
    let streaks = gust_streak_glyphs();
    assert_eq!(streaks.len(), 6);
    assert!(streaks.iter().all(|c| ['~', '≈', '>', '»', '-'].contains(c)));
    assert!(feedback_is_fresh(1_599_999_999));
    assert!(!feedback_is_fresh(1_600_000_000));
}

#[test]
fn scene_tables() {
    assert_eq!(star_glow(0), ('*', NordColor::SnowWhite));
    assert_eq!(star_glow(4), ('.', NordColor::ArcticBlue));
    assert_eq!(settled_color(0, NordColor::HoneyGold, Season::Winter, Mood::Day), NordColor::HoneyGold);
    assert_eq!(settled_color(1, NordColor::HoneyGold, Season::Winter, Mood::Day), NordColor::NordFrostCyan);
    assert_eq!(settled_color(4, NordColor::HoneyGold, Season::Winter, Mood::Day), NordColor::PolarSlateMed);
    assert_eq!(altitude_color(0, NordColor::HoneyGold, Season::Summer), NordColor::GoldChampagne);
    assert_eq!(altitude_color(3, NordColor::HoneyGold, Season::Summer), NordColor::HoneyGold);
    let perched = bird_cells(BirdFlightState::Perched, false, true, 0);
    assert_eq!(perched[0].0, '♪');
    let flying = bird_cells(BirdFlightState::FlyingOut, true, false, 4);
    assert_eq!((flying[0].0, flying[1].0, flying[2].0), ('~', '•', '~'));
}

#[test]
fn scene_limits() {
    assert!(bloom_rust::physics::room_to_settle(179));
    assert!(!bloom_rust::physics::room_to_settle(180));
    assert!(!bloom_rust::physics::room_to_float(40));
    assert!(bloom_rust::physics::room_for_firefly(21));
    assert!(!bloom_rust::physics::room_for_bird(1, 0));
    assert!(bloom_rust::physics::room_for_bird(1, 3));
    assert!(!bloom_rust::physics::room_for_bird(2, 3));
    assert!(!bloom_rust::physics::room_for_streak(24));
    assert_eq!(bloom_rust::physics::petals_missing(140, 150), 10);
    assert_eq!(bloom_rust::physics::petals_missing(160, 150), 0);
}

#[test]
fn upper_rows_sway() {
    assert!(bloom_rust::tree::row_sways(0, 50));
    assert!(bloom_rust::tree::row_sways(31, 50));
    assert!(!bloom_rust::tree::row_sways(32, 50));
    assert!(!bloom_rust::tree::row_sways(0, 1));
    assert!(!bloom_rust::tree::row_sways(0, 0));
}
