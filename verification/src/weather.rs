//! Weather bookkeeping: what a weather code means, how the status text is
//! put together, when to fetch again, where the location comes from, and
//! how many weather particles each condition keeps on screen.

use vstd::prelude::*;
use crate::text::{
    chars_of, copy_range, find_char_from, first_from, occurs_in, push_char, str_contains, str_equals, trim_range, trimmed,
};

verus! {

/// The weather shown by the scene.
#[derive(Debug, Clone, Copy, PartialEq, Eq, Structural)]
pub enum WeatherCondition {
    Clear,
    Cloudy,
    Fog,
    Rain,
    Snow,
}

/// The kinds of weather particles.
#[derive(Debug, Clone, Copy, PartialEq, Eq, Structural)]
pub enum WeatherFxKind {
    RainDrop,
    RainSplash,
    SnowFlake,
    FogWisp,
    SunGlimmer,
    CloudWisp,
}

/// The condition of a WMO weather code (no code reads as clear).
pub open spec fn condition_of(code: Option<u8>) -> WeatherCondition {
    match code {
        Some(c) => if c == 0 || c == 1 {
            WeatherCondition::Clear
        } else if c == 2 || c == 3 {
            WeatherCondition::Cloudy
        } else if c == 45 || c == 48 {
            WeatherCondition::Fog
        } else if (51 <= c <= 67) || (80 <= c <= 82) || (95 <= c <= 99) {
            WeatherCondition::Rain
        } else if (71 <= c <= 77) || (85 <= c <= 86) {
            WeatherCondition::Snow
        } else {
            WeatherCondition::Clear
        },
        None => WeatherCondition::Clear,
    }
}

/// What each WMO weather code shows: 2 and 3 (partly cloudy, overcast)
/// clouds; 45 and 48 (fog, rime fog) fog; 51-67 (drizzle, rain, freezing
/// rain), 80-82 (rain showers) and 95-99 (thunderstorms) rain; 71-77 (snow,
/// snow grains) and 85-86 (snow showers) snow; every other code, and no
/// reading at all, a clear sky.
pub proof fn lemma_wmo_codes(code: u8)
    ensures
        condition_of(Some(code)) == WeatherCondition::Cloudy <==> (code == 2 || code == 3),
        condition_of(Some(code)) == WeatherCondition::Fog <==> (code == 45 || code == 48),
        condition_of(Some(code)) == WeatherCondition::Rain <==> ((51 <= code && code <= 67) || (80
            <= code && code <= 82) || (95 <= code && code <= 99)),
        condition_of(Some(code)) == WeatherCondition::Snow <==> ((71 <= code && code <= 77) || (85
            <= code && code <= 86)),
        condition_of(Some(code)) == WeatherCondition::Clear <==> !((code == 2 || code == 3) || (code
            == 45 || code == 48) || (51 <= code && code <= 67) || (80 <= code && code <= 82) || (95
            <= code && code <= 99) || (71 <= code && code <= 77) || (85 <= code && code <= 86)),
        condition_of(None) == WeatherCondition::Clear,
{
}

/// The condition of a WMO weather code: 0-1 clear, 2-3 cloudy, 45 and 48
/// fog, drizzle, rain, showers and thunderstorms rain, snow codes snow,
/// anything else (or no reading) clear.
pub fn condition_for_code(code: Option<u8>) -> (res: WeatherCondition)
    ensures
        res == condition_of(code),
{
    match code {
        Some(c) => {
            if c == 0 || c == 1 {
                WeatherCondition::Clear
            } else if c == 2 || c == 3 {
                WeatherCondition::Cloudy
            } else if c == 45 || c == 48 {
                WeatherCondition::Fog
            } else if (51 <= c && c <= 67) || (80 <= c && c <= 82) || (95 <= c && c <= 99) {
                WeatherCondition::Rain
            } else if (71 <= c && c <= 77) || (85 <= c && c <= 86) {
                WeatherCondition::Snow
            } else {
                WeatherCondition::Clear
            }
        },
        None => WeatherCondition::Clear,
    }
}

/// The weather code of a forecast reply: the number read (0 when there is
/// none), cut to its low eight bits.
pub fn weathercode_of(raw: Option<u64>) -> (res: u8)
    ensures
        res as int == (match raw {
            Some(v) => v as int,
            None => 0,
        }) % 256,
{
    let v: u64 = match raw {
        Some(v) => v,
        None => 0,
    };
    (v % 256) as u8
}

/// The weather code a forecast reply gives: the number at
/// `current_weather.weathercode` (0 when there is none), cut to eight bits.
pub fn reply_weathercode(reply: &str) -> (res: u8)
    ensures
        res as int == (match crate::json::json_u64_field(reply@, "current_weather"@, "weathercode"@) {
            Some(v) => v as int,
            None => 0,
        }) % 256,
{
    weathercode_of(crate::json::reply_weathercode_field(reply))
}

/// The city an IP-location reply names, or the default city.
pub fn reply_city(reply: &str) -> (res: String)
    ensures
        res@ == (match crate::json::json_str_field(reply@, "city"@) {
            Some(c) => c,
            None => default_city(),
        }),
{
    city_or_default(crate::json::reply_city_field(reply))
}

/// The city a lookup found, or the default city when it found none.
pub fn city_or_default(found: Option<String>) -> (res: String)
    ensures
        res@ == (match found {
            Some(c) => c@,
            None => default_city(),
        }),
{
    match found {
        Some(c) => c,
        None => String::from_str(default_city_name()),
    }
}

/// The city shown when no other is known.
pub open spec fn default_city() -> Seq<char> {
    "Concepción"@
}

/// The city shown when no other is known.
pub fn default_city_name() -> (res: &'static str)
    ensures
        res@ == default_city(),
{
    "Concepción"
}

/// The city the status line names: the one given on the command line,
/// else the GNOME Weather location, else the city of the IP lookup, else
/// the default.
pub open spec fn city_shown(manual: Seq<char>, gnome: Option<Seq<char>>, ip: Option<Seq<char>>) -> Seq<char> {
    if manual.len() > 0 {
        manual
    } else {
        match gnome {
            Some(g) => g,
            None => match ip {
                Some(c) => c,
                None => default_city(),
            },
        }
    }
}

/// The city the status line names.
pub fn choose_city(manual: &str, gnome: Option<&str>, ip: Option<&str>) -> (res: String)
    ensures
        res@ == city_shown(manual@, crate::text::opt_str_view(gnome), crate::text::opt_str_view(ip)),
{
    if !manual.is_empty() {
        String::from_str(manual)
    } else {
        match gnome {
            Some(g) => String::from_str(g),
            None => match ip {
                Some(c) => String::from_str(c),
                None => String::from_str(default_city_name()),
            },
        }
    }
}

/// What a temperature shows before its first reading.
pub open spec fn updating() -> Seq<char> {
    "Updating..."@
}

/// A temperature reading, or "Updating..." before there is one.
pub open spec fn reading_or_updating(t: Option<Seq<char>>) -> Seq<char> {
    match t {
        Some(s) => s,
        None => updating(),
    }
}

/// The weather part of the status line: the city and its temperature, then
/// Santiago and its temperature.
pub open spec fn info_line(city: Seq<char>, primary: Option<Seq<char>>, santiago: Option<Seq<char>>) -> Seq<char> {
    city + " · "@ + reading_or_updating(primary) + "  │  Santiago · "@ + reading_or_updating(santiago)
}

/// Puts the weather part of the status line together; `primary` and
/// `santiago` are the formatted temperatures, if read.
pub fn weather_info_line(city: &str, primary: Option<&str>, santiago: Option<&str>) -> (res: String)
    ensures
        res@ == info_line(city@, crate::text::opt_str_view(primary), crate::text::opt_str_view(santiago)),
{
    let mut out = String::from_str(city);
    out.append(" · ");
    match primary {
        Some(p) => out.append(p),
        None => out.append("Updating..."),
    }
    out.append("  │  Santiago · ");
    match santiago {
        Some(s) => out.append(s),
        None => out.append("Updating..."),
    }
    out
}

/// The status line's weather part names the city first, then its reading
/// (or "Updating..." before there is one), then Santiago and Santiago's
/// reading; the city shown is the one given on the command line when
/// there is one, else the GNOME location's, else the IP lookup's, else
/// Concepción.
pub proof fn lemma_weather_text(
    city: Seq<char>,
    primary: Option<Seq<char>>,
    santiago: Option<Seq<char>>,
    manual: Seq<char>,
    gnome: Option<Seq<char>>,
    ip: Option<Seq<char>>,
)
    ensures
        info_line(city, primary, santiago).subrange(0, city.len() as int) == city,
        info_line(city, primary, santiago) == city + " · "@ + reading_or_updating(primary)
            + "  │  Santiago · "@ + reading_or_updating(santiago),
        primary is None ==> reading_or_updating(primary) == "Updating..."@,
        primary is Some ==> reading_or_updating(primary) == primary.unwrap(),
        manual.len() > 0 ==> city_shown(manual, gnome, ip) == manual,
        manual.len() == 0 && gnome is Some ==> city_shown(manual, gnome, ip) == gnome.unwrap(),
        manual.len() == 0 && gnome is None && ip is Some ==> city_shown(manual, gnome, ip) == ip.unwrap(),
        manual.len() == 0 && gnome is None && ip is None ==> city_shown(manual, gnome, ip)
            == "Concepción"@,
        refresh_interval_nanos() == 15 * 60 * 1_000_000_000,
{
    let line = info_line(city, primary, santiago);
    assert(line.subrange(0, city.len() as int) =~= city);
}

/// The text shown while weather is switched off.
pub open spec fn offline_text() -> Seq<char> {
    "Offline Mode"@
}

/// The weather text before the first fetch: both cities updating, or
/// "Offline Mode" when weather is switched off.
pub fn initial_info(enabled: bool) -> (res: String)
    ensures
        enabled ==> res@ == info_line(default_city(), None, None),
        !enabled ==> res@ == offline_text(),
{
    if enabled {
        weather_info_line(default_city_name(), None, None)
    } else {
        String::from_str("Offline Mode")
    }
}

/// The weather text: "Offline Mode" when switched off, else the cached text.
pub fn weather_info_text(enabled: bool, cached: &str) -> (res: String)
    ensures
        enabled ==> res@ == cached@,
        !enabled ==> res@ == offline_text(),
{
    if !enabled {
        String::from_str("Offline Mode")
    } else {
        String::from_str(cached)
    }
}

/// The condition the scene shows: the cached one, or clear when weather is
/// switched off.
pub fn primary_condition(enabled: bool, cached: WeatherCondition) -> (res: WeatherCondition)
    ensures
        res == (if enabled {
            cached
        } else {
            WeatherCondition::Clear
        }),
{
    if !enabled {
        WeatherCondition::Clear
    } else {
        cached
    }
}

/// Fifteen minutes, in nanoseconds: how long a fetched reading stays fresh.
pub open spec fn refresh_interval_nanos() -> int {
    900_000_000_000
}

/// Whether to fetch again: after a fetch, once more than fifteen minutes
/// have passed since it; before any fetch, when none is under way.
pub fn should_refetch(since_last_fetch_nanos: Option<u128>, is_fetching: bool) -> (res: bool)
    ensures
        res == (match since_last_fetch_nanos {
            Some(t) => t > refresh_interval_nanos(),
            None => !is_fetching,
        }),
{
    match since_last_fetch_nanos {
        Some(t) => t > 900_000_000_000,
        None => !is_fetching,
    }
}

/// Whether a background weather fetch is under way.
#[derive(Debug, Clone, Copy, PartialEq, Eq, Structural)]
pub struct FetchGate {
    pub is_fetching: bool,
}

impl FetchGate {
    /// No fetch under way.
    pub fn new() -> (res: Self)
        ensures
            !res.is_fetching,
    {
        FetchGate { is_fetching: false }
    }

    /// Starts a fetch when weather is on and none is under way, and tells
    /// whether it did.
    pub fn try_begin(&mut self, enabled: bool) -> (started: bool)
        ensures
            (*final(self), started) == begin_of(*old(self), enabled),
    {
        if !enabled || self.is_fetching {
            false
        } else {
            self.is_fetching = true;
            true
        }
    }

    /// Marks the fetch under way as done.
    pub fn finish(&mut self)
        ensures
            !final(self).is_fetching,
    {
        self.is_fetching = false;
    }
}

/// A request to fetch: it goes ahead when weather is on and no fetch is
/// under way, and then marks one as under way.
pub open spec fn begin_of(g: FetchGate, enabled: bool) -> (FetchGate, bool) {
    if enabled && !g.is_fetching {
        (FetchGate { is_fetching: true }, true)
    } else {
        (g, false)
    }
}

/// While a fetch is under way no other starts; after it finishes, the next
/// request with weather on starts one.
pub proof fn lemma_one_fetch_at_a_time(g: FetchGate, first: bool, second: bool)
    ensures
        begin_of(g, first).1 ==> !begin_of(begin_of(g, first).0, second).1,
        begin_of(FetchGate { is_fetching: false }, true).1,
        !begin_of(g, false).1,
{
}

/// What the newer of two values is: the fetched one when there is one,
/// else the cached one.
pub open spec fn latest<T>(cached: Option<T>, fetched: Option<T>) -> Option<T> {
    if fetched is Some {
        fetched
    } else {
        cached
    }
}

/// A fetched value replaces the cached one; a failed fetch keeps it.
pub fn merge_latest<T>(cached: Option<T>, fetched: Option<T>) -> (res: Option<T>)
    ensures
        res == latest(cached, fetched),
{
    match fetched {
        Some(v) => Some(v),
        None => cached,
    }
}

/// The GNOME Weather location as the scene uses it: its name, and whether
/// it lies south of the equator.
#[derive(Debug, Clone, PartialEq, Eq)]
pub struct GnomePlace {
    pub name: String,
    pub south: bool,
}

/// One weather reading: its WMO weather code and its temperature as shown.
#[derive(Debug, Clone, PartialEq, Eq)]
pub struct Reading {
    pub weathercode: u8,
    pub temperature: String,
}

/// The name of a GNOME Weather location, if there is one.
pub open spec fn place_name(g: Option<GnomePlace>) -> Option<Seq<char>> {
    match g {
        Some(p) => Some(p.name@),
        None => None,
    }
}

/// The weather code of a reading, if there is one.
pub open spec fn reading_code(r: Option<Reading>) -> Option<u8> {
    match r {
        Some(x) => Some(x.weathercode),
        None => None,
    }
}

/// The temperature text of a reading, if there is one.
pub open spec fn reading_text(r: Option<Reading>) -> Option<Seq<char>> {
    match r {
        Some(x) => Some(x.temperature@),
        None => None,
    }
}

/// What the weather fetcher keeps between fetches: the last location and
/// readings it got, whether a fetch is under way, and the condition and
/// status text they give.
pub struct WeatherCache {
    pub gnome: Option<GnomePlace>,
    pub ip_city: Option<String>,
    pub primary: Option<Reading>,
    pub santiago: Option<Reading>,
    pub fetch: FetchGate,
    pub condition: WeatherCondition,
    pub info: String,
}

impl WeatherCache {
    /// Nothing fetched yet: a clear sky, both cities updating, or
    /// "Offline Mode" when weather is switched off.
    pub fn new(enabled: bool) -> (res: Self)
        ensures
            res.gnome is None,
            res.ip_city is None,
            res.primary is None,
            res.santiago is None,
            !res.fetch.is_fetching,
            res.condition == WeatherCondition::Clear,
            enabled ==> res.info@ == info_line(default_city(), None, None),
            !enabled ==> res.info@ == offline_text(),
    {
        WeatherCache {
            gnome: None,
            ip_city: None,
            primary: None,
            santiago: None,
            fetch: FetchGate::new(),
            condition: WeatherCondition::Clear,
            info: initial_info(enabled),
        }
    }

    /// Takes in what one fetch brought: each fetched value replaces the
    /// cached one and a failed part keeps it; the condition follows the
    /// primary reading, the status text names the city shown with both
    /// temperatures, and the fetch is marked done.
    pub fn apply_fetch(
        &mut self,
        manual_city: &str,
        gnome: Option<GnomePlace>,
        ip_city: Option<String>,
        primary: Option<Reading>,
        santiago: Option<Reading>,
    )
        ensures
            final(self).gnome == latest(old(self).gnome, gnome),
            final(self).ip_city == latest(old(self).ip_city, ip_city),
            final(self).primary == latest(old(self).primary, primary),
            final(self).santiago == latest(old(self).santiago, santiago),
            final(self).condition == condition_of(reading_code(final(self).primary)),
            final(self).info@ == info_line(
                city_shown(
                    manual_city@,
                    place_name(final(self).gnome),
                    crate::text::opt_string_view(final(self).ip_city),
                ),
                reading_text(final(self).primary),
                reading_text(final(self).santiago),
            ),
            !final(self).fetch.is_fetching,
    {
        self.gnome = merge_latest(self.gnome.take(), gnome);
        self.ip_city = merge_latest(self.ip_city.take(), ip_city);
        self.primary = merge_latest(self.primary.take(), primary);
        self.santiago = merge_latest(self.santiago.take(), santiago);
        let code: Option<u8> = match &self.primary {
            Some(r) => Some(r.weathercode),
            None => None,
        };
        self.condition = condition_for_code(code);
        let gnome_name: Option<&str> = match &self.gnome {
            Some(p) => Some(p.name.as_str()),
            None => None,
        };
        let ip_name: Option<&str> = match &self.ip_city {
            Some(c) => Some(c.as_str()),
            None => None,
        };
        let city = choose_city(manual_city, gnome_name, ip_name);
        let primary_text: Option<&str> = match &self.primary {
            Some(r) => Some(r.temperature.as_str()),
            None => None,
        };
        let santiago_text: Option<&str> = match &self.santiago {
            Some(r) => Some(r.temperature.as_str()),
            None => None,
        };
        self.info = weather_info_line(city.as_str(), primary_text, santiago_text);
        self.fetch.finish();
    }
}

/// `s` with every space written `%20`.
pub open spec fn percent_spaces(s: Seq<char>) -> Seq<char>
    decreases s.len(),
{
    if s.len() == 0 {
        Seq::empty()
    } else {
        percent_spaces(s.drop_last()) + (if s.last() == ' ' {
            seq!['%', '2', '0']
        } else {
            seq![s.last()]
        })
    }
}

/// The encoded name has no spaces left, and each space became three
/// characters.
pub proof fn lemma_percent_spaces(s: Seq<char>)
    ensures
        !percent_spaces(s).contains(' '),
        percent_spaces(s).len() == s.len() + 2 * s.filter(|c: char| c == ' ').len(),
    decreases s.len(),
{
    reveal_with_fuel(Seq::<char>::filter, 1);
    if s.len() > 0 {
        lemma_percent_spaces(s.drop_last());
        let prev = percent_spaces(s.drop_last());
        let tail: Seq<char> = if s.last() == ' ' {
            seq!['%', '2', '0']
        } else {
            seq![s.last()]
        };
        assert(percent_spaces(s) == prev + tail);
        assert(!tail.contains(' '));
        assert forall|i: int| 0 <= i < (prev + tail).len() implies (prev + tail)[i] != ' ' by {
            if i < prev.len() {
                assert(!prev.contains(' '));
                assert((prev + tail)[i] == prev[i]);
            } else {
                assert((prev + tail)[i] == tail[i - prev.len()]);
            }
        }
    }
}

/// Writes every space of a city name as `%20`.
pub fn encode_city(city: &str) -> (res: String)
    ensures
        res@ == percent_spaces(city@),
{
    let cs = chars_of(city);
    let mut out = String::new();
    let mut i: usize = 0;
    while i < cs.len()
        invariant
            cs@ == city@,
            i <= cs@.len(),
            out@ == percent_spaces(cs@.subrange(0, i as int)),
        decreases cs@.len() - i,
    {
        let c = cs[i];
        assert(cs@.subrange(0, i + 1).drop_last() =~= cs@.subrange(0, i as int));
        if c == ' ' {
            push_char(&mut out, '%');
            push_char(&mut out, '2');
            push_char(&mut out, '0');
        } else {
            push_char(&mut out, c);
        }
        assert(out@ =~= percent_spaces(cs@.subrange(0, i + 1)));
        i = i + 1;
    }
    assert(cs@.subrange(0, cs@.len() as int) =~= cs@);
    out
}

/// The geocoding request for a city: the first match of its name.
pub fn geocode_url(city: &str) -> (res: String)
    ensures
        res@ == "https://geocoding-api.open-meteo.com/v1/search?name="@ + percent_spaces(city@)
            + "&count=1"@,
{
    let mut out = String::from_str("https://geocoding-api.open-meteo.com/v1/search?name=");
    let encoded = encode_city(city);
    out.append(encoded.as_str());
    out.append("&count=1");
    out
}

/// The count of weather particles each condition keeps on screen.
pub open spec fn fx_target_of(condition: WeatherCondition) -> usize {
    match condition {
        WeatherCondition::Rain => 55,
        WeatherCondition::Snow => 40,
        WeatherCondition::Fog => 22,
        WeatherCondition::Cloudy => 15,
        WeatherCondition::Clear => 16,
    }
}

/// Each condition spawns its own kind of particle (rain drops, snow
/// flakes, fog and cloud wisps, sun glimmers), no two conditions the same
/// kind; rain keeps the most particles on screen, then snow, fog, a clear
/// sky and clouds; and every condition has glyphs to draw from, none
/// repeated.
pub proof fn lemma_weather_particles(condition: WeatherCondition, other: WeatherCondition)
    ensures
        condition != other ==> spawn_kind_of(condition) != spawn_kind_of(other),
        spawn_kind_of(WeatherCondition::Rain) == WeatherFxKind::RainDrop,
        spawn_kind_of(WeatherCondition::Snow) == WeatherFxKind::SnowFlake,
        spawn_kind_of(WeatherCondition::Fog) == WeatherFxKind::FogWisp,
        spawn_kind_of(WeatherCondition::Cloudy) == WeatherFxKind::CloudWisp,
        spawn_kind_of(WeatherCondition::Clear) == WeatherFxKind::SunGlimmer,
        fx_target_of(WeatherCondition::Rain) > fx_target_of(WeatherCondition::Snow),
        fx_target_of(WeatherCondition::Snow) > fx_target_of(WeatherCondition::Fog),
        fx_target_of(WeatherCondition::Fog) > fx_target_of(WeatherCondition::Clear),
        fx_target_of(WeatherCondition::Clear) > fx_target_of(WeatherCondition::Cloudy),
        fx_target_of(WeatherCondition::Rain) == 55,
        fx_target_of(WeatherCondition::Cloudy) == 15,
        spawn_glyphs_of(condition).len() > 0,
        forall|i: int, j: int|
            0 <= i < j < spawn_glyphs_of(condition).len() ==> spawn_glyphs_of(condition)[i]
                != spawn_glyphs_of(condition)[j],
{
}

/// The count of weather particles a condition keeps on screen.
pub fn fx_target_count(condition: WeatherCondition) -> (res: usize)
    ensures
        res == fx_target_of(condition),
{
    match condition {
        WeatherCondition::Rain => 55,
        WeatherCondition::Snow => 40,
        WeatherCondition::Fog => 22,
        WeatherCondition::Cloudy => 15,
        WeatherCondition::Clear => 16,
    }
}

/// The kind of particle a condition spawns.
pub open spec fn spawn_kind_of(condition: WeatherCondition) -> WeatherFxKind {
    match condition {
        WeatherCondition::Rain => WeatherFxKind::RainDrop,
        WeatherCondition::Snow => WeatherFxKind::SnowFlake,
        WeatherCondition::Fog => WeatherFxKind::FogWisp,
        WeatherCondition::Cloudy => WeatherFxKind::CloudWisp,
        WeatherCondition::Clear => WeatherFxKind::SunGlimmer,
    }
}

/// The kind of particle a condition spawns.
pub fn spawn_kind(condition: WeatherCondition) -> (res: WeatherFxKind)
    ensures
        res == spawn_kind_of(condition),
{
    match condition {
        WeatherCondition::Rain => WeatherFxKind::RainDrop,
        WeatherCondition::Snow => WeatherFxKind::SnowFlake,
        WeatherCondition::Fog => WeatherFxKind::FogWisp,
        WeatherCondition::Cloudy => WeatherFxKind::CloudWisp,
        WeatherCondition::Clear => WeatherFxKind::SunGlimmer,
    }
}

/// The glyphs new particles of a condition are drawn from.
pub open spec fn spawn_glyphs_of(condition: WeatherCondition) -> Seq<char> {
    match condition {
        WeatherCondition::Rain => seq!['│', '┆', '\'', '|'],
        WeatherCondition::Snow => seq!['*', '·', '+', 'o'],
        WeatherCondition::Fog => seq!['~', '─', '·', '-'],
        WeatherCondition::Cloudy => seq!['~', '─'],
        WeatherCondition::Clear => seq!['·', '+', '*'],
    }
}

/// The glyphs new particles of a condition are drawn from.
pub fn spawn_glyphs(condition: WeatherCondition) -> (res: Vec<char>)
    ensures
        res@ == spawn_glyphs_of(condition),
{
    let res = match condition {
        WeatherCondition::Rain => vec!['│', '┆', '\'', '|'],
        WeatherCondition::Snow => vec!['*', '·', '+', 'o'],
        WeatherCondition::Fog => vec!['~', '─', '·', '-'],
        WeatherCondition::Cloudy => vec!['~', '─'],
        WeatherCondition::Clear => vec!['·', '+', '*'],
    };
    assert(res@ =~= spawn_glyphs_of(condition));
    res
}

/// At most this many rain splashes start in one frame.
pub open spec fn max_new_splashes() -> int {
    16
}

/// Of `landed` raindrops that reached the ground this frame, how many leave
/// a splash: all of them, up to sixteen.
pub fn splash_count(landed: usize) -> (res: usize)
    ensures
        res == (if landed < max_new_splashes() {
            landed as int
        } else {
            max_new_splashes()
        }),
{
    if landed < 16 {
        landed
    } else {
        16
    }
}

/// The output of `gsettings` when GNOME Weather has no locations.
pub open spec fn no_locations(out: Seq<char>) -> bool {
    out.len() == 0 || trimmed(out) == "@av []"@
}

/// Whether GNOME Weather reports no saved location.
pub fn gnome_locations_unset(out: &str) -> (res: bool)
    ensures
        res == no_locations(out@),
{
    if out.is_empty() {
        return true;
    }
    let cs = chars_of(out);
    assert(cs@.subrange(0, cs@.len() as int) =~= out@);
    let t = trim_range(&cs, 0, cs.len());
    str_equals(t.as_str(), "@av []")
}

/// The city name of GNOME Weather's location list: the text after the
/// first `'`, up to the next `'` or the end, trimmed; none when the text has
/// no quote.
pub open spec fn city_name_in(s: Seq<char>) -> Option<Seq<char>> {
    let first = first_from(s, '\'', 0);
    if first == s.len() {
        None
    } else {
        Some(trimmed(s.subrange(first + 1, first_from(s, '\'', first + 1))))
    }
}

/// Reads the city name out of GNOME Weather's location list.
pub fn extract_city_name(out: &str) -> (res: Option<String>)
    ensures
        match res {
            Some(name) => city_name_in(out@) == Some(name@),
            None => city_name_in(out@) is None,
        },
{
    let cs = chars_of(out);
    let n = cs.len();
    let first = match find_char_from(&cs, '\'', 0) {
        Some(i) => i,
        None => {
            return None;
        },
    };
    let end = match find_char_from(&cs, '\'', first + 1) {
        Some(j) => j,
        None => n,
    };
    Some(trim_range(&cs, first + 1, end))
}

/// The two coordinate fields of GNOME Weather's location list: the text
/// between the first `(` and the first `)` (which must come after it),
/// split at commas, first and second field trimmed; none when a bracket is
/// missing, out of order, or there is no comma.
pub open spec fn coordinate_texts(s: Seq<char>) -> Option<(Seq<char>, Seq<char>)> {
    let p1 = first_from(s, '(', 0);
    let p2 = first_from(s, ')', 0);
    if p1 == s.len() || p2 == s.len() || p2 <= p1 {
        None
    } else {
        let inner = s.subrange(p1 + 1, p2);
        let c1 = first_from(inner, ',', 0);
        if c1 == inner.len() {
            None
        } else {
            let c2 = first_from(inner, ',', c1 + 1);
            Some((trimmed(inner.subrange(0, c1)), trimmed(inner.subrange(c1 + 1, c2))))
        }
    }
}

/// Reads the latitude and longitude fields (still as text, in radians) out
/// of GNOME Weather's location list.
pub fn coordinate_fields(out: &str) -> (res: Option<(String, String)>)
    ensures
        match res {
            Some((a, b)) => coordinate_texts(out@) == Some((a@, b@)),
            None => coordinate_texts(out@) is None,
        },
{
    let cs = chars_of(out);
    let n = cs.len();
    let p1 = match find_char_from(&cs, '(', 0) {
        Some(i) => i,
        None => {
            return None;
        },
    };
    let p2 = match find_char_from(&cs, ')', 0) {
        Some(i) => i,
        None => {
            return None;
        },
    };
    if p2 <= p1 {
        return None;
    }
    let inner = copy_range(&cs, p1 + 1, p2);
    let m = inner.len();
    let c1 = match find_char_from(&inner, ',', 0) {
        Some(i) => i,
        None => {
            return None;
        },
    };
    let c2 = match find_char_from(&inner, ',', c1 + 1) {
        Some(j) => j,
        None => m,
    };
    let lat = trim_range(&inner, 0, c1);
    let lon = trim_range(&inner, c1 + 1, c2);
    Some((lat, lon))
}

/// Time zone names of the southern hemisphere that the local time link is
/// checked for.
pub open spec fn southern_zone_named(path: Seq<char>) -> bool {
    ||| occurs_in(path, "Santiago"@)
    ||| occurs_in(path, "Chile"@)
    ||| occurs_in(path, "Punta_Arenas"@)
    ||| occurs_in(path, "Easter"@)
    ||| occurs_in(path, "Argentina"@)
    ||| occurs_in(path, "America/Sao_Paulo"@)
    ||| occurs_in(path, "Australia"@)
    ||| occurs_in(path, "Auckland"@)
}

/// A local time link is southern exactly when it names Santiago, Chile,
/// Punta Arenas, Easter Island, Argentina, São Paulo, Australia or
/// Auckland; a `TZ` value is Chilean exactly when it names Santiago,
/// Chile, or Chile's standard or summer time (CLT, CLST).
pub proof fn lemma_zone_names(path: Seq<char>, tz: Seq<char>)
    ensures
        occurs_in(path, "Santiago"@) ==> southern_zone_named(path),
        occurs_in(path, "Chile"@) ==> southern_zone_named(path),
        occurs_in(path, "Punta_Arenas"@) ==> southern_zone_named(path),
        occurs_in(path, "Easter"@) ==> southern_zone_named(path),
        occurs_in(path, "Argentina"@) ==> southern_zone_named(path),
        occurs_in(path, "America/Sao_Paulo"@) ==> southern_zone_named(path),
        occurs_in(path, "Australia"@) ==> southern_zone_named(path),
        occurs_in(path, "Auckland"@) ==> southern_zone_named(path),
        southern_zone_named(path) ==> occurs_in(path, "Santiago"@) || occurs_in(path, "Chile"@)
            || occurs_in(path, "Punta_Arenas"@) || occurs_in(path, "Easter"@) || occurs_in(
            path,
            "Argentina"@,
        ) || occurs_in(path, "America/Sao_Paulo"@) || occurs_in(path, "Australia"@) || occurs_in(
            path,
            "Auckland"@,
        ),
        occurs_in(tz, "Santiago"@) ==> chilean_tz_named(tz),
        occurs_in(tz, "Chile"@) ==> chilean_tz_named(tz),
        occurs_in(tz, "CLT"@) ==> chilean_tz_named(tz),
        occurs_in(tz, "CLST"@) ==> chilean_tz_named(tz),
        chilean_tz_named(tz) ==> occurs_in(tz, "Santiago"@) || occurs_in(tz, "Chile"@) || occurs_in(
            tz,
            "CLT"@,
        ) || occurs_in(tz, "CLST"@),
{
}

/// Whether the target of `/etc/localtime` names a southern time zone.
pub fn mentions_southern_zone(path: &str) -> (res: bool)
    ensures
        res == southern_zone_named(path@),
{
    str_contains(path, "Santiago") || str_contains(path, "Chile") || str_contains(path, "Punta_Arenas")
        || str_contains(path, "Easter") || str_contains(path, "Argentina") || str_contains(
        path,
        "America/Sao_Paulo",
    ) || str_contains(path, "Australia") || str_contains(path, "Auckland")
}

/// Chilean names the `TZ` variable is checked for.
pub open spec fn chilean_tz_named(tz: Seq<char>) -> bool {
    ||| occurs_in(tz, "Santiago"@)
    ||| occurs_in(tz, "Chile"@)
    ||| occurs_in(tz, "CLT"@)
    ||| occurs_in(tz, "CLST"@)
}

/// Whether the `TZ` variable names a Chilean zone.
pub fn mentions_chilean_tz(tz: &str) -> (res: bool)
    ensures
        res == chilean_tz_named(tz@),
{
    str_contains(tz, "Santiago") || str_contains(tz, "Chile") || str_contains(tz, "CLT")
        || str_contains(tz, "CLST")
}

/// Whether the scene takes the southern hemisphere's seasons: the side of
/// the equator of the GNOME Weather location when there is one; otherwise
/// southern when the local time link names a southern time zone or the
/// `TZ` variable names a Chilean one, and northern when neither does.
pub fn is_southern_hemisphere(
    gnome_south: Option<bool>,
    localtime_link: Option<&str>,
    tz: Option<&str>,
) -> (res: bool)
    ensures
        res == (match gnome_south {
            Some(b) => b,
            None => {
                ||| (localtime_link matches Some(p) && southern_zone_named(p@))
                ||| (tz matches Some(t) && chilean_tz_named(t@))
            },
        }),
{
    if let Some(b) = gnome_south {
        return b;
    }
    if let Some(path) = localtime_link {
        if mentions_southern_zone(path) {
            return true;
        }
    }
    if let Some(t) = tz {
        if mentions_chilean_tz(t) {
            return true;
        }
    }
    false
}

} // verus!
