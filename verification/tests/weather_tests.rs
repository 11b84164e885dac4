use bloom_rust::calendar::needs_hemisphere_detection;
use bloom_rust::config::{AppConfig, Hemisphere, Mood, Season};
use bloom_rust::text::char_is_whitespace;
use bloom_rust::weather::{
    choose_city, condition_for_code, coordinate_fields, encode_city, extract_city_name, fx_target_count,
    geocode_url, gnome_locations_unset, initial_info, is_southern_hemisphere, mentions_chilean_tz,
    mentions_southern_zone, merge_latest, primary_condition, should_refetch, spawn_glyphs, spawn_kind,
    splash_count, weather_info_line, weather_info_text, weathercode_of, GnomePlace, Reading, WeatherCache,
    WeatherCondition, WeatherFxKind,
};

#[test]
fn weather_codes() {
    assert_eq!(condition_for_code(Some(0)), WeatherCondition::Clear);
    assert_eq!(condition_for_code(Some(3)), WeatherCondition::Cloudy);
    assert_eq!(condition_for_code(Some(48)), WeatherCondition::Fog);
    assert_eq!(condition_for_code(Some(61)), WeatherCondition::Rain);
    assert_eq!(condition_for_code(Some(81)), WeatherCondition::Rain);
    assert_eq!(condition_for_code(Some(95)), WeatherCondition::Rain);
    assert_eq!(condition_for_code(Some(73)), WeatherCondition::Snow);
    assert_eq!(condition_for_code(Some(86)), WeatherCondition::Snow);
    assert_eq!(condition_for_code(Some(68)), WeatherCondition::Clear);
    assert_eq!(condition_for_code(None), WeatherCondition::Clear);
    assert_eq!(weathercode_of(Some(300)), 44);
    assert_eq!(weathercode_of(None), 0);
}

#[test]
fn city_and_info_text() {
    assert_eq!(choose_city("Talca", Some("Concepción"), None), "Talca");
    assert_eq!(choose_city("", Some("Temuco"), Some("Lima")), "Temuco");
    assert_eq!(choose_city("", None, Some("Lima")), "Lima");
    assert_eq!(choose_city("", None, None), "Concepción");
    assert_eq!(weather_info_line("Lima", Some("18.5°C"), None), "Lima · 18.5°C  │  Santiago · Updating...");
    assert_eq!(initial_info(true), "Concepción · Updating...  │  Santiago · Updating...");
    assert_eq!(initial_info(false), "Offline Mode");
    assert_eq!(weather_info_text(false, "cached"), "Offline Mode");
    assert_eq!(weather_info_text(true, "cached"), "cached");
    assert_eq!(primary_condition(false, WeatherCondition::Rain), WeatherCondition::Clear);
    assert_eq!(primary_condition(true, WeatherCondition::Rain), WeatherCondition::Rain);
}

#[test]
fn refetch_timing() {
    assert!(!should_refetch(Some(900_000_000_000), false));
    assert!(should_refetch(Some(900_000_000_001), true));
    assert!(should_refetch(None, false));
    assert!(!should_refetch(None, true));
    assert_eq!(merge_latest(Some(1), None), Some(1));
    assert_eq!(merge_latest(Some(1), Some(2)), Some(2));
    assert_eq!(merge_latest::<u8>(None, None), None);
}

#[test]
fn city_urls() {
    assert_eq!(encode_city("Puerto Montt"), "Puerto%20Montt");
    assert_eq!(encode_city(" a  b"), "%20a%20%20b");
    assert_eq!(geocode_url("San Pedro"), "https://geocoding-api.open-meteo.com/v1/search?name=San%20Pedro&count=1");
}

#[test]
fn gnome_location_text() {
    let out = "[<(uint32 2, <('Concepción ', 'SCIE', true, [(-0.6382, -1.2747)], @a(dd) [])>)>]\n";
    assert_eq!(extract_city_name(out).as_deref(), Some("Concepción"));
    assert_eq!(extract_city_name("no quotes"), None);
    assert_eq!(extract_city_name("x' open ended  ").as_deref(), Some("open ended"));
    assert!(gnome_locations_unset(""));
    assert!(gnome_locations_unset("  @av []\n"));
    assert!(!gnome_locations_unset(out));
}

#[test]
fn coordinate_text_fields() {
    assert_eq!(coordinate_fields("[( -0.6382 , -1.2747, 3)]"), Some(("-0.6382".to_string(), "-1.2747".to_string())));
    assert_eq!(coordinate_fields("(1.5,2.5)"), Some(("1.5".to_string(), "2.5".to_string())));
    assert_eq!(coordinate_fields(")(1.5,2.5"), None);
    assert_eq!(coordinate_fields("(1.5 2.5)"), None);
    assert_eq!(coordinate_fields("1.5,2.5"), None);
}

#[test]
fn southern_hemisphere_detection() {
    assert!(mentions_southern_zone("/usr/share/zoneinfo/America/Santiago"));
    assert!(mentions_southern_zone("/usr/share/zoneinfo/Australia/Sydney"));
    assert!(!mentions_southern_zone("/usr/share/zoneinfo/Europe/Paris"));
    assert!(mentions_chilean_tz("CLST"));
    assert!(!mentions_chilean_tz("UTC"));
    assert!(!is_southern_hemisphere(Some(false), Some("America/Santiago"), None));
    assert!(is_southern_hemisphere(Some(true), None, None));
    assert!(!is_southern_hemisphere(None, Some("Europe/Paris"), Some("UTC")));
    assert!(!is_southern_hemisphere(None, Some("/usr/share/zoneinfo/Europe/Berlin"), None));
    assert!(!is_southern_hemisphere(None, None, None));
    assert!(is_southern_hemisphere(None, Some("/usr/share/zoneinfo/America/Santiago"), None));
    assert!(is_southern_hemisphere(None, Some("/usr/share/zoneinfo/Europe/Berlin"), Some("Chile/Continental")));
}

#[test]
fn weather_particle_rules() {
    assert_eq!(fx_target_count(WeatherCondition::Rain), 55);
    assert_eq!(fx_target_count(WeatherCondition::Snow), 40);
    assert_eq!(fx_target_count(WeatherCondition::Fog), 22);
    assert_eq!(fx_target_count(WeatherCondition::Cloudy), 15);
    assert_eq!(fx_target_count(WeatherCondition::Clear), 16);
    assert_eq!(spawn_kind(WeatherCondition::Cloudy), WeatherFxKind::CloudWisp);
    assert_eq!(spawn_glyphs(WeatherCondition::Cloudy), vec!['~', '─']);
    assert_eq!(splash_count(3), 3);
    assert_eq!(splash_count(40), 16);
}

#[test]
fn json_reply_fields() {
    let forecast = r#"{"current_weather":{"temperature":12.5,"weathercode":63}}"#;
    assert_eq!(bloom_rust::weather::reply_weathercode(forecast), 63);
    assert_eq!(bloom_rust::weather::reply_weathercode(r#"{"current_weather":{"weathercode":300}}"#), 44);
    assert_eq!(bloom_rust::weather::reply_weathercode("not json"), 0);
    assert_eq!(bloom_rust::weather::reply_city(r#"{"city":"Valparaíso","lat":-33.0}"#), "Valparaíso");
    assert_eq!(bloom_rust::weather::reply_city(r#"{"lat":-33.0}"#), "Concepción");
    assert_eq!(bloom_rust::weather::reply_city("{"), "Concepción");
}

#[test]
fn one_fetch_at_a_time() {
    let mut gate = bloom_rust::weather::FetchGate::new();
    assert!(!gate.try_begin(false));
    assert!(gate.try_begin(true));
    assert!(!gate.try_begin(true));
    gate.finish();
    assert!(gate.try_begin(true));
}

#[test]
fn city_fallback() {
    assert_eq!(bloom_rust::weather::city_or_default(None), "Concepción");
    assert_eq!(bloom_rust::weather::city_or_default(Some("Arica".to_string())), "Arica");
}

#[test]
fn white_space_is_the_unicode_property() {
    for c in ['\t', '\n', '\u{b}', '\u{c}', '\r', ' ', '\u{85}', '\u{a0}', '\u{1680}', '\u{2000}', '\u{2005}', '\u{200a}', '\u{2028}', '\u{2029}', '\u{202f}', '\u{205f}', '\u{3000}'] {
        assert!(char_is_whitespace(c), "{:?}", c);
    }
    for c in ['a', '@', '\u{8}', '\u{e}', '\u{200b}', '\u{feff}', '\u{180e}', '\u{2060}'] {
        assert!(!char_is_whitespace(c), "{:?}", c);
    }
    assert!(gnome_locations_unset("\u{3000}@av []\u{a0}\n"));
    assert_eq!(extract_city_name("[<(uint32 2, <('\u{2003}Santiago ', 'SCEL')>)>]"), Some("Santiago".to_string()));
}

#[test]
fn fetch_results_update_the_cache() {
    let mut c = WeatherCache::new(true);
    assert_eq!(c.condition, WeatherCondition::Clear);
    assert_eq!(c.info, "Concepción · Updating...  │  Santiago · Updating...");
    assert_eq!(WeatherCache::new(false).info, "Offline Mode");
    assert!(c.fetch.try_begin(true));
    let valdivia = GnomePlace { name: "Valdivia".to_string(), south: true };
    c.apply_fetch(
        "",
        Some(valdivia.clone()),
        None,
        Some(Reading { weathercode: 61, temperature: "9.5°C".to_string() }),
        None,
    );
    assert_eq!(c.condition, WeatherCondition::Rain);
    assert_eq!(c.info, "Valdivia · 9.5°C  │  Santiago · Updating...");
    assert!(!c.fetch.is_fetching);
    c.apply_fetch("", None, Some("Lima".to_string()), None, Some(Reading { weathercode: 0, temperature: "20.0°C".to_string() }));
    assert_eq!(c.gnome, Some(valdivia));
    assert_eq!(c.ip_city, Some("Lima".to_string()));
    assert_eq!(c.condition, WeatherCondition::Rain);
    assert_eq!(c.info, "Valdivia · 9.5°C  │  Santiago · 20.0°C");
    c.apply_fetch("Talca", None, None, Some(Reading { weathercode: 73, temperature: "-1.0°C".to_string() }), None);
    assert_eq!(c.condition, WeatherCondition::Snow);
    assert_eq!(c.info, "Talca · -1.0°C  │  Santiago · 20.0°C");
}

#[test]
fn hemisphere_detection_only_for_auto() {
    let mut c = AppConfig {
        art_path: None,
        stars: true,
        mood: Mood::Night,
        season: Season::Auto,
        hemisphere: Hemisphere::Auto,
        enable_weather: true,
        city: String::new(),
    };
    assert!(needs_hemisphere_detection(&c));
    c.hemisphere = Hemisphere::North;
    assert!(!needs_hemisphere_detection(&c));
    c.hemisphere = Hemisphere::Auto;
    c.season = Season::Winter;
    assert!(!needs_hemisphere_detection(&c));
}
