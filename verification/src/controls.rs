//! Keyboard controls: `1`-`4` pick a season, `m` toggles day and night,
//! `a` or `?` toggles the about overlay, `q` or `Esc` quits.

use vstd::prelude::*;
use crate::config::{AppConfig, Mood, Season};

verus! {

/// A key, as far as the controls tell keys apart.
#[derive(Debug, Clone, Copy, PartialEq, Eq, Structural)]
pub enum Key {
    Char(char),
    Esc,
    Other,
}

/// A keyboard event: the key, and whether it was pressed (as opposed to
/// repeated or released).
#[derive(Debug, Clone, Copy, PartialEq, Eq, Structural)]
pub struct KeyEvent {
    pub key: Key,
    pub is_press: bool,
}

/// What the main loop does after a key.
#[derive(Debug, Clone, Copy, PartialEq, Eq, Structural)]
pub enum Control {
    Quit,
    Continue,
}

/// The part of the screensaver's state that keys change.
#[derive(Debug, Clone, Copy, PartialEq, Eq, Structural)]
pub struct ViewState {
    pub season: Season,
    pub mood: Mood,
    pub show_about: bool,
}

/// The other mood.
pub open spec fn toggled(m: Mood) -> Mood {
    match m {
        Mood::Day => Mood::Night,
        Mood::Night => Mood::Day,
    }
}

/// The effect of a keyboard event on the view, and whether to go on.
pub open spec fn step(v: ViewState, e: KeyEvent) -> (ViewState, Control) {
    if !e.is_press {
        (v, Control::Continue)
    } else {
        match e.key {
            Key::Esc => (v, Control::Quit),
            Key::Char(c) => if c == 'q' || c == 'Q' {
                (v, Control::Quit)
            } else if c == 'a' || c == 'A' || c == '?' {
                (ViewState { show_about: !v.show_about, ..v }, Control::Continue)
            } else if c == '1' {
                (ViewState { season: Season::Spring, ..v }, Control::Continue)
            } else if c == '2' {
                (ViewState { season: Season::Summer, ..v }, Control::Continue)
            } else if c == '3' {
                (ViewState { season: Season::Autumn, ..v }, Control::Continue)
            } else if c == '4' {
                (ViewState { season: Season::Winter, ..v }, Control::Continue)
            } else if c == 'm' || c == 'M' {
                (ViewState { mood: toggled(v.mood), ..v }, Control::Continue)
            } else {
                (v, Control::Continue)
            },
            Key::Other => (v, Control::Continue),
        }
    }
}

/// The view part of a configuration.
pub open spec fn view_of(config: AppConfig, show_about: bool) -> ViewState {
    ViewState { season: config.season, mood: config.mood, show_about }
}

/// Applies a keyboard event to the view and tells whether to quit.
pub fn apply_key(v: ViewState, e: KeyEvent) -> (res: (ViewState, Control))
    ensures
        res == step(v, e),
{
    if !e.is_press {
        return (v, Control::Continue);
    }
    match e.key {
        Key::Esc => (v, Control::Quit),
        Key::Char(c) => {
            if c == 'q' || c == 'Q' {
                (v, Control::Quit)
            } else if c == 'a' || c == 'A' || c == '?' {
                (ViewState { show_about: !v.show_about, ..v }, Control::Continue)
            } else if c == '1' {
                (ViewState { season: Season::Spring, ..v }, Control::Continue)
            } else if c == '2' {
                (ViewState { season: Season::Summer, ..v }, Control::Continue)
            } else if c == '3' {
                (ViewState { season: Season::Autumn, ..v }, Control::Continue)
            } else if c == '4' {
                (ViewState { season: Season::Winter, ..v }, Control::Continue)
            } else if c == 'm' || c == 'M' {
                let mood = match v.mood {
                    Mood::Day => Mood::Night,
                    Mood::Night => Mood::Day,
                };
                (ViewState { mood, ..v }, Control::Continue)
            } else {
                (v, Control::Continue)
            }
        },
        Key::Other => (v, Control::Continue),
    }
}

/// Applies a keyboard event to the running configuration and the about
/// overlay flag; only the season, the mood and the flag can change.
pub fn handle_key(config: &mut AppConfig, show_about: &mut bool, e: KeyEvent) -> (res: Control)
    ensures
        (view_of(*final(config), *final(show_about)), res) == step(view_of(*old(config), *old(show_about)), e),
        final(config).art_path == old(config).art_path,
        final(config).stars == old(config).stars,
        final(config).hemisphere == old(config).hemisphere,
        final(config).enable_weather == old(config).enable_weather,
        final(config).city == old(config).city,
{
    let v = ViewState { season: config.season, mood: config.mood, show_about: *show_about };
    let (next, control) = apply_key(v, e);
    config.season = next.season;
    config.mood = next.mood;
    *show_about = next.show_about;
    control
}

/// Pressing `m` twice gives back the mood the scene had.
pub proof fn lemma_mood_toggle_twice(v: ViewState, c: char)
    requires
        c == 'm' || c == 'M',
    ensures
        step(step(v, KeyEvent { key: Key::Char(c), is_press: true }).0, KeyEvent { key: Key::Char(c), is_press: true }).0 == v,
        step(v, KeyEvent { key: Key::Char(c), is_press: true }).0.mood != v.mood,
{
}

/// Pressing `a` (or `A`, or `?`) twice closes the about overlay it opened.
pub proof fn lemma_about_toggle_twice(v: ViewState, c: char)
    requires
        c == 'a' || c == 'A' || c == '?',
    ensures
        step(step(v, KeyEvent { key: Key::Char(c), is_press: true }).0, KeyEvent { key: Key::Char(c), is_press: true }).0 == v,
{
}

/// The season keys select their season whatever was shown before, and
/// pressing one again changes nothing.
pub proof fn lemma_season_keys(v: ViewState, c: char)
    requires
        c == '1' || c == '2' || c == '3' || c == '4',
    ensures
        step(v, KeyEvent { key: Key::Char(c), is_press: true }).0.season == (if c == '1' {
            Season::Spring
        } else if c == '2' {
            Season::Summer
        } else if c == '3' {
            Season::Autumn
        } else {
            Season::Winter
        }),
        step(step(v, KeyEvent { key: Key::Char(c), is_press: true }).0, KeyEvent { key: Key::Char(c), is_press: true }).0
            == step(v, KeyEvent { key: Key::Char(c), is_press: true }).0,
        step(v, KeyEvent { key: Key::Char(c), is_press: true }).0.mood == v.mood,
        step(v, KeyEvent { key: Key::Char(c), is_press: true }).0.show_about == v.show_about,
{
}

/// `q`, `Q` and `Esc` quit and change nothing; events other than presses
/// change nothing and never quit.
pub proof fn lemma_quit_and_non_press(v: ViewState, e: KeyEvent)
    ensures
        e.is_press && (e.key == Key::Esc || e.key == Key::Char('q') || e.key == Key::Char('Q')) ==> step(v, e) == (v, Control::Quit),
        !e.is_press ==> step(v, e) == (v, Control::Continue),
        step(v, e).1 == Control::Quit ==> step(v, e).0 == v,
{
}


/// Only a press of `q`, `Q` or `Esc` quits; a press of any key other than
/// the season keys `1`-`4`, `m`, `M`, `a`, `A` and `?` changes nothing.
pub proof fn lemma_other_keys(v: ViewState, e: KeyEvent)
    ensures
        step(v, e).1 == Control::Quit <==> e.is_press && (e.key == Key::Esc || e.key == Key::Char('q')
            || e.key == Key::Char('Q')),
        !(e.key matches Key::Char(c) && (c == '1' || c == '2' || c == '3' || c == '4' || c == 'm' || c
            == 'M' || c == 'a' || c == 'A' || c == '?')) ==> step(v, e).0 == v,
{
}

} // verus!
