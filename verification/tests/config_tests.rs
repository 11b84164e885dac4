use bloom_rust::calendar::{get_effective_season, season_on};
use bloom_rust::config::{config_from_args, parse_hemisphere, parse_mood, parse_season, AppConfig, CliArgs, ConfigActionResult, Hemisphere, Mood, Season};
use bloom_rust::controls::{apply_key, handle_key, Control, Key, KeyEvent, ViewState};

fn args() -> CliArgs {
    CliArgs {
        art: None,
        stars: false,
        no_stars: false,
        mood: None,
        season: None,
        hemisphere: None,
        no_weather: false,
        weather: false,
        city: None,
        about: false,
    }
}

fn config() -> AppConfig {
    match config_from_args(args()) {
        ConfigActionResult::Run(c) => c,
        _ => panic!("expected a configuration"),
    }
}

fn press(c: char) -> KeyEvent {
    KeyEvent { key: Key::Char(c), is_press: true }
}

#[test]
fn mood_names() {
    assert_eq!(parse_mood(Some("day")), Mood::Day);
    assert_eq!(parse_mood(Some("Day")), Mood::Day);
    assert_eq!(parse_mood(Some("DAY")), Mood::Night);
    assert_eq!(parse_mood(Some("night")), Mood::Night);
    assert_eq!(parse_mood(None), Mood::Night);
}

#[test]
fn season_names() {
    assert_eq!(parse_season(Some("spring")), Season::Spring);
    assert_eq!(parse_season(Some("Summer")), Season::Summer);
    assert_eq!(parse_season(Some("fall")), Season::Autumn);
    assert_eq!(parse_season(Some("Fall")), Season::Autumn);
    assert_eq!(parse_season(Some("autumn")), Season::Autumn);
    assert_eq!(parse_season(Some("winter")), Season::Winter);
    assert_eq!(parse_season(Some("monsoon")), Season::Auto);
    assert_eq!(parse_season(None), Season::Auto);
}

#[test]
fn hemisphere_names() {
    assert_eq!(parse_hemisphere(Some("south")), Hemisphere::South);
    assert_eq!(parse_hemisphere(Some("North")), Hemisphere::North);
    assert_eq!(parse_hemisphere(Some("east")), Hemisphere::Auto);
    assert_eq!(parse_hemisphere(None), Hemisphere::Auto);
}

#[test]
fn about_flag_shows_about_page() {
    let mut a = args();
    a.about = true;
    a.mood = Some("day".to_string());
    assert!(matches!(config_from_args(a), ConfigActionResult::About));
}

#[test]
fn flags_become_configuration() {
    let mut a = args();
    a.mood = Some("day".to_string());
    a.season = Some("winter".to_string());
    a.hemisphere = Some("south".to_string());
    a.no_weather = true;
    a.city = Some("Valdivia".to_string());
    a.art = Some("tree.txt".to_string());
    match config_from_args(a) {
        ConfigActionResult::Run(c) => {
            assert_eq!(c.mood, Mood::Day);
            assert_eq!(c.season, Season::Winter);
            assert_eq!(c.hemisphere, Hemisphere::South);
            assert!(!c.enable_weather);
            assert!(c.stars);
            assert_eq!(c.city, "Valdivia");
            assert_eq!(c.art_path.as_deref(), Some("tree.txt"));
        }
        _ => panic!("expected a configuration"),
    }
    let c = config();
    assert_eq!(c.city, "");
    assert!(c.enable_weather);
    assert!(c.stars);
    assert_eq!(c.mood, Mood::Night);
}

#[test]
fn no_stars_flag_turns_stars_off() {
    let mut a = args();
    a.no_stars = true;
    match config_from_args(a) {
        ConfigActionResult::Run(c) => assert!(!c.stars),
        _ => panic!("expected a configuration"),
    }
    let mut b = args();
    b.stars = true;
    match config_from_args(b) {
        ConfigActionResult::Run(c) => assert!(c.stars),
        _ => panic!("expected a configuration"),
    }
}

#[test]
fn mood_key_twice_restores_mood() {
    let v = ViewState { season: Season::Spring, mood: Mood::Night, show_about: false };
    let (v1, c1) = apply_key(v, press('m'));
    assert_eq!(v1.mood, Mood::Day);
    assert_eq!(c1, Control::Continue);
    let (v2, _) = apply_key(v1, press('M'));
    assert_eq!(v2, v);
}

#[test]
fn about_key_twice_restores_overlay() {
    let v = ViewState { season: Season::Auto, mood: Mood::Day, show_about: false };
    let (v1, _) = apply_key(v, press('?'));
    assert!(v1.show_about);
    let (v2, _) = apply_key(v1, press('a'));
    assert_eq!(v2, v);
}

#[test]
fn season_keys_and_quit() {
    let mut c = config();
    let mut about = false;
    assert_eq!(handle_key(&mut c, &mut about, press('3')), Control::Continue);
    assert_eq!(c.season, Season::Autumn);
    assert_eq!(handle_key(&mut c, &mut about, press('3')), Control::Continue);
    assert_eq!(c.season, Season::Autumn);
    handle_key(&mut c, &mut about, press('1'));
    assert_eq!(c.season, Season::Spring);
    handle_key(&mut c, &mut about, press('4'));
    assert_eq!(c.season, Season::Winter);
    handle_key(&mut c, &mut about, press('2'));
    assert_eq!(c.season, Season::Summer);
    assert_eq!(handle_key(&mut c, &mut about, press('q')), Control::Quit);
    assert_eq!(handle_key(&mut c, &mut about, KeyEvent { key: Key::Esc, is_press: true }), Control::Quit);
    assert_eq!(c.season, Season::Summer);
    let released = KeyEvent { key: Key::Char('m'), is_press: false };
    assert_eq!(handle_key(&mut c, &mut about, released), Control::Continue);
    assert_eq!(c.mood, Mood::Night);
    assert_eq!(handle_key(&mut c, &mut about, KeyEvent { key: Key::Other, is_press: true }), Control::Continue);
    assert!(!about);
}

#[test]
fn calendar_seasons_by_hemisphere() {
    assert_eq!(season_on(Season::Auto, Hemisphere::North, false, 1, 15), Season::Winter);
    assert_eq!(season_on(Season::Auto, Hemisphere::South, false, 1, 15), Season::Summer);
    assert_eq!(season_on(Season::Auto, Hemisphere::North, true, 3, 20), Season::Winter);
    assert_eq!(season_on(Season::Auto, Hemisphere::North, true, 3, 21), Season::Spring);
    assert_eq!(season_on(Season::Auto, Hemisphere::Auto, true, 7, 4), Season::Winter);
    assert_eq!(season_on(Season::Auto, Hemisphere::Auto, false, 7, 4), Season::Summer);
    assert_eq!(season_on(Season::Auto, Hemisphere::North, false, 10, 31), Season::Autumn);
    assert_eq!(season_on(Season::Auto, Hemisphere::South, false, 10, 31), Season::Spring);
    assert_eq!(season_on(Season::Auto, Hemisphere::North, false, 12, 21), Season::Winter);
    assert_eq!(season_on(Season::Summer, Hemisphere::South, true, 7, 4), Season::Summer);
}

#[test]
fn hemispheres_are_opposite_on_every_date() {
    let opposite = |s: Season| match s {
        Season::Spring => Season::Autumn,
        Season::Summer => Season::Winter,
        Season::Autumn => Season::Spring,
        Season::Winter => Season::Summer,
        Season::Auto => Season::Auto,
    };
    for m in 1..=12u32 {
        for d in 1..=31u32 {
            let n = season_on(Season::Auto, Hemisphere::North, false, m, d);
            let s = season_on(Season::Auto, Hemisphere::South, false, m, d);
            assert_eq!(s, opposite(n));
        }
    }
}

#[test]
fn effective_season_today() {
    let mut c = config();
    c.season = Season::Autumn;
    assert_eq!(get_effective_season(&c, true), Season::Autumn);
    c.season = Season::Auto;
    assert_ne!(get_effective_season(&c, true), Season::Auto);
}

#[test]
fn status_refresh_rule() {
    assert!(bloom_rust::layout::status_stale(5, 6, Some(Season::Spring), Season::Spring));
    assert!(bloom_rust::layout::status_stale(5, 5, None, Season::Spring));
    assert!(bloom_rust::layout::status_stale(5, 5, Some(Season::Winter), Season::Spring));
    assert!(!bloom_rust::layout::status_stale(5, 5, Some(Season::Spring), Season::Spring));
    assert!(bloom_rust::physics::fireflies_out(Season::Summer, Mood::Night));
    assert!(!bloom_rust::physics::fireflies_out(Season::Summer, Mood::Day));
    assert!(!bloom_rust::physics::fireflies_out(Season::Auto, Mood::Night));
    assert!(bloom_rust::scene::stars_visible(true, Mood::Night));
    assert!(!bloom_rust::scene::stars_visible(true, Mood::Day));
    assert!(bloom_rust::scene::too_small_to_draw(9, 20));
    assert!(!bloom_rust::scene::too_small_to_draw(10, 5));
}
