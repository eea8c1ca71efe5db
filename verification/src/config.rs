//! The settings that outlive a session.

use vstd::prelude::*;
use vstd::string::StringExecFns;
use crate::history::HistoryStore;
use crate::theme::{ColorTheme, ColorThemeView};

verus! {

/// The shortest time a word is shown, in milliseconds.
pub const MIN_SPEED_MS: u32 = 200;

/// The longest time a word is shown, in milliseconds.
pub const MAX_SPEED_MS: u32 = 2000;

/// The step by which the time per word changes, in milliseconds.
pub const SPEED_STEP_MS: u32 = 100;

/// The name of the font that needs no file.
pub open spec fn default_font() -> Seq<char> {
    "default"@
}

/// Whether `speed` is a time per word that playback uses: a multiple of the
/// step within the limits.
pub open spec fn valid_speed(speed: int) -> bool {
    MIN_SPEED_MS <= speed <= MAX_SPEED_MS && speed % (SPEED_STEP_MS as int) == 0
}

/// The valid speed for a wanted one: brought within the limits, then down
/// to a multiple of the step.
pub open spec fn nearest_speed(speed: int) -> int {
    if speed < MIN_SPEED_MS {
        MIN_SPEED_MS as int
    } else if speed > MAX_SPEED_MS {
        MAX_SPEED_MS as int
    } else {
        speed - speed % (SPEED_STEP_MS as int)
    }
}

/// The speed after a change by `delta`, kept within the limits.
pub open spec fn adjusted_speed(speed: int, delta: int) -> int {
    if speed + delta < MIN_SPEED_MS {
        MIN_SPEED_MS as int
    } else if speed + delta > MAX_SPEED_MS {
        MAX_SPEED_MS as int
    } else {
        speed + delta
    }
}

/// The speed for a wanted one is valid, and a valid one is kept.
pub proof fn lemma_nearest_speed(speed: int)
    ensures
        valid_speed(nearest_speed(speed)),
        valid_speed(speed) ==> nearest_speed(speed) == speed,
{
}

/// A step up or down from a valid speed gives a valid speed; at a limit,
/// the step beyond it changes nothing.
pub proof fn lemma_adjusted_speed(speed: int, delta: int)
    requires
        valid_speed(speed),
        delta == SPEED_STEP_MS || delta == -(SPEED_STEP_MS as int),
    ensures
        valid_speed(adjusted_speed(speed, delta)),
        speed == MIN_SPEED_MS && delta < 0 ==> adjusted_speed(speed, delta) == speed,
        speed == MAX_SPEED_MS && delta > 0 ==> adjusted_speed(speed, delta) == speed,
{
}

/// Brings a wanted speed to a valid one.
pub fn normalize_speed(speed: u32) -> (r: u32)
    ensures
        r == nearest_speed(speed as int),
        valid_speed(r as int),
{
    if speed < MIN_SPEED_MS {
        MIN_SPEED_MS
    } else if speed > MAX_SPEED_MS {
        MAX_SPEED_MS
    } else {
        speed - speed % SPEED_STEP_MS
    }
}

/// The settings: font, time per word, colours and reading positions.
pub struct Config {
    pub font: String,
    pub velocity: u32,
    pub theme: ColorTheme,
    pub text_history: HistoryStore,
}

/// The settings as plain values.
pub struct ConfigView {
    pub font: Seq<char>,
    pub velocity: u32,
    pub theme: ColorThemeView,
    pub text_history: Map<Seq<char>, usize>,
}

impl View for Config {
    type V = ConfigView;

    open spec fn view(&self) -> ConfigView {
        ConfigView {
            font: self.font@,
            velocity: self.velocity,
            theme: self.theme@,
            text_history: self.text_history@,
        }
    }
}

/// The colours of a fresh installation.
pub open spec fn default_theme() -> ColorThemeView {
    ColorThemeView {
        background: "#FFFEF9"@,
        text: "#15161B"@,
        primary: "#C17F5A"@,
        success: "#809C6C"@,
        warning: "#AE363F"@,
        danger: "#DF3535"@,
    }
}

/// The settings of a fresh installation.
pub open spec fn default_settings() -> ConfigView {
    ConfigView {
        font: default_font(),
        velocity: MAX_SPEED_MS,
        theme: default_theme(),
        text_history: Map::empty(),
    }
}

impl Config {
    /// The reading positions are well formed.
    pub open spec fn wf(&self) -> bool {
        self.text_history.wf()
    }

    /// The settings of a fresh installation.
    pub fn initial() -> (r: Config)
        ensures
            r.wf(),
            r@ == default_settings(),
    {
        Config {
            font: String::from_str("default"),
            velocity: MAX_SPEED_MS,
            theme: ColorTheme {
                background: String::from_str("#FFFEF9"),
                text: String::from_str("#15161B"),
                primary: String::from_str("#C17F5A"),
                success: String::from_str("#809C6C"),
                warning: String::from_str("#AE363F"),
                danger: String::from_str("#DF3535"),
            },
            text_history: HistoryStore::new(),
        }
    }

    /// The name of the font file to read at start, if the font is not the
    /// default one.
    pub fn font_to_load(&self) -> (r: Option<String>)
        ensures
            r matches Some(name) ==> self@.font != default_font() && name@ == self@.font,
            r is None ==> self@.font == default_font(),
    {
        if self.font == String::from_str("default") {
            None
        } else {
            Some(self.font.clone())
        }
    }
}

} // verus!
