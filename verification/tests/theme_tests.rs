use rsvp::config::Config;
use rsvp::message::ColorOption;
use rsvp::theme::{hex_to_rgb, rgb_to_hex, Palette, Rgb};

#[test]
fn reads_upper_and_lower_case_digits() {
    assert_eq!(hex_to_rgb("#FFFEF9"), Some(Rgb { r: 0xff, g: 0xfe, b: 0xf9 }));
    assert_eq!(hex_to_rgb("#c17f5a"), Some(Rgb { r: 0xc1, g: 0x7f, b: 0x5a }));
    assert_eq!(hex_to_rgb("#000000"), Some(Rgb { r: 0, g: 0, b: 0 }));
    assert_eq!(hex_to_rgb("#0a0B10"), Some(Rgb { r: 10, g: 11, b: 16 }));
}

#[test]
fn refuses_what_is_no_colour() {
    assert_eq!(hex_to_rgb(""), None);
    assert_eq!(hex_to_rgb("FFFEF9"), None);
    assert_eq!(hex_to_rgb("#FFFEF"), None);
    assert_eq!(hex_to_rgb("#FFFEF9A"), None);
    assert_eq!(hex_to_rgb("#GGGGGG"), None);
    assert_eq!(hex_to_rgb("#12 456"), None);
    assert_eq!(hex_to_rgb("#-1-1-1"), None);
    assert_eq!(hex_to_rgb("#1+1+1+"), None);
    assert_eq!(hex_to_rgb("#\u{e9}0000"), None);
    assert_eq!(hex_to_rgb("#\u{e9}00000"), None);
}

#[test]
fn a_plus_sign_may_stand_before_one_digit() {
    assert_eq!(hex_to_rgb("#+F+0+a"), Some(Rgb { r: 15, g: 0, b: 10 }));
    assert_eq!(hex_to_rgb("#++0000"), None);
}

#[test]
fn reads_bytes_as_from_str_radix_does() {
    let pairs = ["00", "ff", "FF", "7f", "+1", "+g", "1+", "g0", "0g", "--", "-1", " 1", "zz"];
    for p in pairs {
        let text = format!("#{}0000", p);
        let expected = u8::from_str_radix(p, 16).ok().map(|r| Rgb { r, g: 0, b: 0 });
        assert_eq!(hex_to_rgb(&text), expected, "{}", text);
    }
}

#[test]
fn writes_upper_case_with_leading_zeros() {
    assert_eq!(rgb_to_hex(Rgb { r: 0xff, g: 0xfe, b: 0xf9 }), "#FFFEF9");
    assert_eq!(rgb_to_hex(Rgb { r: 0, g: 10, b: 5 }), "#000A05");
    assert_eq!(rgb_to_hex(Rgb { r: 0xc1, g: 0x7f, b: 0x5a }), "#C17F5A");
}

#[test]
fn writing_then_reading_gives_the_colour_back() {
    for r in [0u8, 1, 9, 10, 15, 16, 127, 128, 200, 255] {
        for g in [0u8, 17, 255] {
            let c = Rgb { r, g, b: r ^ g };
            assert_eq!(hex_to_rgb(&rgb_to_hex(c)), Some(c));
        }
    }
}

#[test]
fn theme_holds_a_colour_per_option() {
    let mut theme = Config::initial().theme;
    assert_eq!(theme.color(ColorOption::Background), "#FFFEF9");
    assert_eq!(theme.color(ColorOption::Text), "#15161B");
    assert_eq!(theme.color(ColorOption::Primary), "#C17F5A");
    assert_eq!(theme.color(ColorOption::_Success), "#809C6C");
    assert_eq!(theme.color(ColorOption::_Warning), "#AE363F");
    assert_eq!(theme.color(ColorOption::_Danger), "#DF3535");
    theme.set_color(ColorOption::Text, "#010203".to_string());
    assert_eq!(theme.color(ColorOption::Text), "#010203");
    assert_eq!(theme.text, "#010203");
    assert_eq!(theme.color(ColorOption::Background), "#FFFEF9");
}

#[test]
fn palette_reads_all_six_colours() {
    let theme = Config::initial().theme;
    assert_eq!(
        theme.palette(),
        Some(Palette {
            background: Rgb { r: 0xff, g: 0xfe, b: 0xf9 },
            text: Rgb { r: 0x15, g: 0x16, b: 0x1b },
            primary: Rgb { r: 0xc1, g: 0x7f, b: 0x5a },
            success: Rgb { r: 0x80, g: 0x9c, b: 0x6c },
            warning: Rgb { r: 0xae, g: 0x36, b: 0x3f },
            danger: Rgb { r: 0xdf, g: 0x35, b: 0x35 },
        })
    );
}

#[test]
fn palette_needs_every_colour_to_be_one() {
    let mut theme = Config::initial().theme;
    theme.set_color(ColorOption::_Danger, "red".to_string());
    assert_eq!(theme.palette(), None);
}
