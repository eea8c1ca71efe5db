//! Colours: their `#RRGGBB` notation and the six-colour theme.

use vstd::prelude::*;
use crate::message::ColorOption;

verus! {

/// A colour as three bytes.
#[derive(Clone, Copy, Debug, PartialEq, Eq, Structural)]
pub struct Rgb {
    pub r: u8,
    pub g: u8,
    pub b: u8,
}

/// The value of a hexadecimal digit, of either case.
pub open spec fn hex_value(c: char) -> Option<u8> {
    if '0' <= c <= '9' {
        Some((c as u32 - '0' as u32) as u8)
    } else if 'a' <= c <= 'f' {
        Some((c as u32 - 'a' as u32 + 10) as u8)
    } else if 'A' <= c <= 'F' {
        Some((c as u32 - 'A' as u32 + 10) as u8)
    } else {
        None
    }
}

/// The byte that two characters denote in base 16.  A plus sign in front
/// of a single digit is accepted.
pub open spec fn hex_byte(hi: char, lo: char) -> Option<u8> {
    match (hex_value(hi), hex_value(lo)) {
        (Some(h), Some(l)) => Some((16 * h + l) as u8),
        (None, Some(l)) => if hi == '+' {
            Some(l)
        } else {
            None
        },
        _ => None,
    }
}

/// The colour that `s` denotes: a `#` and three bytes in base 16.
pub open spec fn hex_color(s: Seq<char>) -> Option<Rgb> {
    if s.len() == 7 && s[0] == '#' {
        match (hex_byte(s[1], s[2]), hex_byte(s[3], s[4]), hex_byte(s[5], s[6])) {
            (Some(r), Some(g), Some(b)) => Some(Rgb { r, g, b }),
            _ => None,
        }
    } else {
        None
    }
}

/// The upper-case hexadecimal digit for a value below 16.
pub open spec fn hex_char(v: u8) -> char {
    if v < 10 {
        ('0' as u32 + v as u32) as char
    } else {
        ('A' as u32 + (v as u32 - 10)) as char
    }
}

/// The notation of a colour: `#RRGGBB`, in upper case.
pub open spec fn hex_text(c: Rgb) -> Seq<char> {
    seq![
        '#',
        hex_char(c.r / 16),
        hex_char(c.r % 16),
        hex_char(c.g / 16),
        hex_char(c.g % 16),
        hex_char(c.b / 16),
        hex_char(c.b % 16),
    ]
}

/// Reading a colour's notation gives the colour back.
pub proof fn lemma_hex_round_trip(c: Rgb)
    ensures
        hex_color(hex_text(c)) == Some(c),
{
    lemma_hex_pair(c.r);
    lemma_hex_pair(c.g);
    lemma_hex_pair(c.b);
}

/// The two digits written for a byte denote that byte.
proof fn lemma_hex_pair(v: u8)
    ensures
        hex_byte(hex_char(v / 16), hex_char(v % 16)) == Some(v),
{
    lemma_hex_char(v / 16);
    lemma_hex_char(v % 16);
}

/// The digit written for a value denotes that value.
proof fn lemma_hex_char(v: u8)
    requires
        v < 16,
    ensures
        hex_value(hex_char(v)) == Some(v),
{
}

fn digit_value(c: char) -> (r: Option<u8>)
    ensures
        r == hex_value(c),
{
    let u: u32 = c as u32;
    if 0x30 <= u && u <= 0x39 {
        Some((u - 0x30) as u8)
    } else if 0x61 <= u && u <= 0x66 {
        Some((u - 0x61 + 10) as u8)
    } else if 0x41 <= u && u <= 0x46 {
        Some((u - 0x41 + 10) as u8)
    } else {
        None
    }
}

fn byte_value(hi: char, lo: char) -> (r: Option<u8>)
    ensures
        r == hex_byte(hi, lo),
{
    match (digit_value(hi), digit_value(lo)) {
        (Some(h), Some(l)) => Some(16 * h + l),
        (None, Some(l)) => if hi == '+' {
            Some(l)
        } else {
            None
        },
        _ => None,
    }
}

fn digit_char(v: u8) -> (r: char)
    requires
        v < 16,
    ensures
        r == hex_char(v),
{
    if v < 10 {
        (0x30 + v) as char
    } else {
        (0x41 + (v - 10)) as char
    }
}

/// Reads a colour from its `#RRGGBB` notation.
pub fn hex_to_rgb(s: &str) -> (r: Option<Rgb>)
    ensures
        r == hex_color(s@),
{
    if s.unicode_len() != 7 || s.get_char(0) != '#' {
        return None;
    }
    let r = byte_value(s.get_char(1), s.get_char(2));
    let g = byte_value(s.get_char(3), s.get_char(4));
    let b = byte_value(s.get_char(5), s.get_char(6));
    match (r, g, b) {
        (Some(r), Some(g), Some(b)) => Some(Rgb { r, g, b }),
        _ => None,
    }
}

/// Writes a colour in its `#RRGGBB` notation.
pub fn rgb_to_hex(c: Rgb) -> (r: String)
    ensures
        r@ == hex_text(c),
{
    let mut out = String::new();
    out.push('#');
    out.push(digit_char(c.r / 16));
    out.push(digit_char(c.r % 16));
    out.push(digit_char(c.g / 16));
    out.push(digit_char(c.g % 16));
    out.push(digit_char(c.b / 16));
    out.push(digit_char(c.b % 16));
    assert(out@ =~= hex_text(c));
    out
}

/// The six colours of the interface, each in `#RRGGBB` notation.
#[derive(Clone, Debug, PartialEq, Eq)]
pub struct ColorTheme {
    pub background: String,
    pub text: String,
    pub primary: String,
    pub success: String,
    pub warning: String,
    pub danger: String,
}

/// A theme as plain text.
pub struct ColorThemeView {
    pub background: Seq<char>,
    pub text: Seq<char>,
    pub primary: Seq<char>,
    pub success: Seq<char>,
    pub warning: Seq<char>,
    pub danger: Seq<char>,
}

impl ColorThemeView {
    /// The notation held for `option`.
    pub open spec fn color(self, option: ColorOption) -> Seq<char> {
        match option {
            ColorOption::Background => self.background,
            ColorOption::Text => self.text,
            ColorOption::Primary => self.primary,
            ColorOption::_Success => self.success,
            ColorOption::_Warning => self.warning,
            ColorOption::_Danger => self.danger,
        }
    }

    /// The theme with `hex` held for `option`.
    pub open spec fn with(self, option: ColorOption, hex: Seq<char>) -> ColorThemeView {
        match option {
            ColorOption::Background => ColorThemeView { background: hex, ..self },
            ColorOption::Text => ColorThemeView { text: hex, ..self },
            ColorOption::Primary => ColorThemeView { primary: hex, ..self },
            ColorOption::_Success => ColorThemeView { success: hex, ..self },
            ColorOption::_Warning => ColorThemeView { warning: hex, ..self },
            ColorOption::_Danger => ColorThemeView { danger: hex, ..self },
        }
    }

    /// The six colours, if every notation denotes one.
    pub open spec fn palette(self) -> Option<Palette> {
        match (
            hex_color(self.background),
            hex_color(self.text),
            hex_color(self.primary),
            hex_color(self.success),
            hex_color(self.warning),
            hex_color(self.danger),
        ) {
            (Some(background), Some(text), Some(primary), Some(success), Some(warning), Some(danger)) => Some(
                Palette { background, text, primary, success, warning, danger },
            ),
            _ => None,
        }
    }
}

impl View for ColorTheme {
    type V = ColorThemeView;

    open spec fn view(&self) -> ColorThemeView {
        ColorThemeView {
            background: self.background@,
            text: self.text@,
            primary: self.primary@,
            success: self.success@,
            warning: self.warning@,
            danger: self.danger@,
        }
    }
}

/// The six colours of a theme, read.
#[derive(Clone, Copy, Debug, PartialEq, Eq, Structural)]
pub struct Palette {
    pub background: Rgb,
    pub text: Rgb,
    pub primary: Rgb,
    pub success: Rgb,
    pub warning: Rgb,
    pub danger: Rgb,
}

impl ColorTheme {
    /// The notation held for `option`.
    pub fn color(&self, option: ColorOption) -> (r: &str)
        ensures
            r@ == self@.color(option),
    {
        match option {
            ColorOption::Background => self.background.as_str(),
            ColorOption::Text => self.text.as_str(),
            ColorOption::Primary => self.primary.as_str(),
            ColorOption::_Success => self.success.as_str(),
            ColorOption::_Warning => self.warning.as_str(),
            ColorOption::_Danger => self.danger.as_str(),
        }
    }

    /// Holds `hex` for `option` from now on.
    pub fn set_color(&mut self, option: ColorOption, hex: String)
        ensures
            final(self)@ == old(self)@.with(option, hex@),
    {
        match option {
            ColorOption::Background => {
                self.background = hex;
            },
            ColorOption::Text => {
                self.text = hex;
            },
            ColorOption::Primary => {
                self.primary = hex;
            },
            ColorOption::_Success => {
                self.success = hex;
            },
            ColorOption::_Warning => {
                self.warning = hex;
            },
            ColorOption::_Danger => {
                self.danger = hex;
            },
        }
    }

    /// Reads the six colours, if every notation denotes one.
    pub fn palette(&self) -> (r: Option<Palette>)
        ensures
            r == self@.palette(),
    {
        match (
            hex_to_rgb(self.background.as_str()),
            hex_to_rgb(self.text.as_str()),
            hex_to_rgb(self.primary.as_str()),
            hex_to_rgb(self.success.as_str()),
            hex_to_rgb(self.warning.as_str()),
            hex_to_rgb(self.danger.as_str()),
        ) {
            (Some(background), Some(text), Some(primary), Some(success), Some(warning), Some(danger)) => Some(
                Palette { background, text, primary, success, warning, danger },
            ),
            _ => None,
        }
    }
}

} // verus!
