use bloom_rust::physics::{puddle_containing, rustle};
use bloom_rust::terrain::{contour_glyph, detect_puddles, grass_hash, ground_contour, ground_row_for, TerrainProfile};

/// The contour wave the screensaver lays the ground out with.
fn wave(width: u16) -> Vec<i32> {
    let w = width.max(1) as usize;
    let w_f32 = w as f32;
    (0..w)
        .map(|x| {
            let fx = x as f32;
            let v = (fx * 0.09).sin() * 0.55 + ((fx / w_f32) * std::f32::consts::PI * 3.2).cos() * 0.45;
            v.round() as i32
        })
        .collect()
}

#[test]
fn test_terrain_profile_dimensions() {
    let terrain = TerrainProfile::new(80, 24, &wave(80));
    assert_eq!(terrain.ground_heights.len(), 80);
    let ground_y = terrain.get_ground_y(40);
    assert!(ground_y <= 24);
}

#[test]
fn ground_rows_stay_on_or_just_above_base() {
    let terrain = TerrainProfile::new(80, 24, &wave(80));
    for &h in &terrain.ground_heights {
        assert!(h == 22 || h == 21);
    }
}

#[test]
fn flat_ground_is_one_puddle() {
    let terrain = TerrainProfile::new(10, 24, &vec![0; 10]);
    assert_eq!(terrain.ground_heights, vec![22; 10]);
    assert_eq!(terrain.puddles, vec![(0, 10)]);
}

#[test]
fn ground_row_clamps_to_two_rows() {
    assert_eq!(ground_row_for(22, 1), 22);
    assert_eq!(ground_row_for(22, -1), 21);
    assert_eq!(ground_row_for(22, -5), 21);
    assert_eq!(ground_row_for(22, 0), 22);
    assert_eq!(ground_row_for(0, -1), 0);
}

#[test]
fn puddles_are_maximal_low_runs_of_four() {
    let heights = vec![5, 5, 5, 5, 4, 5, 5, 5, 4, 5, 5, 5, 5, 5];
    assert_eq!(detect_puddles(&heights, 5), vec![(0, 4), (9, 14)]);
    assert_eq!(detect_puddles(&vec![4, 4, 4], 5), vec![]);
    assert_eq!(detect_puddles(&vec![4, 5, 5, 5, 5, 4], 5), vec![(1, 5)]);
}

#[test]
fn grass_hash_values() {
    assert_eq!(grass_hash(0), 0);
    assert_eq!(grass_hash(1), 61);
    assert_eq!(grass_hash(8), 5);
    assert_eq!(grass_hash(19), 1);
}

#[test]
fn tufts_grow_where_the_hash_is_low() {
    let terrain = TerrainProfile::new(80, 24, &vec![0; 80]);
    let xs: Vec<u16> = terrain.grass_tufts.iter().map(|t| t.x).collect();
    assert_eq!(xs, vec![8, 19, 27, 30, 38, 41, 60, 71, 76]);
    assert_eq!(terrain.grass_tufts[0].glyph, "~");
    assert_eq!(terrain.grass_tufts[0].y, 21);
    assert_eq!(terrain.grass_tufts[1].glyph, "\\//");
}

#[test]
fn resize_to_same_size_keeps_ground() {
    let mut terrain = TerrainProfile::new(80, 24, &wave(80));
    let before = terrain.ground_heights.clone();
    terrain.resize(80, 24, &vec![1; 80]);
    assert_eq!(terrain.ground_heights, before);
    terrain.resize(40, 10, &vec![-1; 40]);
    assert_eq!(terrain.ground_heights, vec![7; 40]);
    assert!(terrain.puddles.is_empty());
}

#[test]
fn ground_y_past_the_edge_uses_last_column() {
    let terrain = TerrainProfile::new(5, 24, &vec![0, 0, 0, 0, -1]);
    assert_eq!(terrain.get_ground_y(4), 21);
    assert_eq!(terrain.get_ground_y(200), 21);
    assert_eq!(terrain.get_ground_y(0), 22);
    let empty = TerrainProfile { width: 0, height: 24, ground_heights: vec![], grass_tufts: vec![], puddles: vec![] };
    assert_eq!(empty.get_ground_y(3), 22);
}

#[test]
fn contour_glyphs_follow_slopes() {
    assert_eq!(contour_glyph(21, 22, 21, 5), '/');
    assert_eq!(contour_glyph(21, 21, 22, 5), '\\');
    assert_eq!(contour_glyph(22, 22, 22, 2), '~');
    assert_eq!(contour_glyph(22, 22, 22, 5), '-');
    assert_eq!(contour_glyph(22, 22, 22, 3), '_');
    let terrain = TerrainProfile::new(4, 24, &vec![0, -1, 0, 0]);
    let cells = ground_contour(&terrain, 4, 23);
    let glyphs: Vec<char> = cells.iter().map(|c| c.ch).collect();
    assert_eq!(glyphs, vec!['_', '/', '~', '_']);
    assert!(ground_contour(&terrain, 4, 21).is_empty());
}

#[test]
fn puddle_lookup_and_rustle() {
    let puddles = vec![(2, 6), (10, 14)];
    assert_eq!(puddle_containing(&puddles, 3), Some((2, 6)));
    assert_eq!(puddle_containing(&puddles, 6), None);
    assert_eq!(puddle_containing(&puddles, 13), Some((10, 14)));
    let terrain = TerrainProfile::new(10, 24, &vec![0, 0, 0, -1, 0, 0, 0, 0, 0, 0]);
    assert_eq!(rustle(&terrain, 2, true, 10, 0), (3, 21));
    assert_eq!(rustle(&terrain, 0, false, 10, 1), (0, 21));
    assert_eq!(rustle(&terrain, 9, true, 10, 2), (9, 20));
}
