use svbar::color::Color;
use svbar::config::{ConfigState, InvalidColor};

fn color(r: u8, g: u8, b: u8) -> Color {
    Color { r, g, b }
}

#[test]
fn from_hex_reads_three_channels() {
    assert_eq!(Color::from_hex("ff8000".to_string()), color(255, 128, 0));
    assert_eq!(Color::from_hex("000000".to_string()), color(0, 0, 0));
    assert_eq!(Color::from_hex("FFFFFF".to_string()), color(255, 255, 255));
    assert_eq!(Color::from_hex("1a2B3c".to_string()), color(0x1a, 0x2b, 0x3c));
}

#[test]
fn as_hex_packs_red_green_blue() {
    assert_eq!(color(0x12, 0x34, 0x56).as_hex(), 0x123456);
    assert_eq!(color(255, 255, 255).as_hex(), 0xFF_FFFF);
    assert_eq!(color(0, 0, 0).as_hex(), 0);
    assert_eq!(color(1, 0, 0).as_hex(), 1 << 16);
    assert_eq!(color(0, 1, 0).as_hex(), 1 << 8);
    assert_eq!(color(0, 0, 1).as_hex(), 1);
}

#[test]
fn hex_round_trip_gives_the_same_number() {
    let samples: [u32; 9] =
        [0, 1, 0xff, 0x100, 0xabcdef, 0x123456, 0x800000, 0x00ff00, 0xffffff];
    for value in samples {
        let lower = format!("{:06x}", value);
        let upper = format!("{:06X}", value);
        assert_eq!(Color::from_hex(lower).as_hex(), value as i32);
        assert_eq!(Color::from_hex(upper).as_hex(), value as i32);
    }
    for step in 0..4096u32 {
        let value = step * 4099 % 0x100_0000;
        let text = format!("{:06x}", value);
        let parsed = Color::from_hex(text);
        assert_eq!(parsed.as_hex(), value as i32);
        assert_eq!(parsed.as_hex(), (parsed.r as i32) << 16 | (parsed.g as i32) << 8 | parsed.b as i32);
    }
}

#[test]
fn try_from_hex_refuses_what_is_no_colour() {
    assert_eq!(Color::try_from_hex(""), None);
    assert_eq!(Color::try_from_hex("12345"), None);
    assert_eq!(Color::try_from_hex("zzzzzz"), None);
    assert_eq!(Color::try_from_hex("#ff000"), None);
    assert_eq!(Color::try_from_hex("ff 000"), None);
    assert_eq!(Color::try_from_hex("ff00é0"), None);
    assert_eq!(Color::try_from_hex("-1-1-1"), None);
    assert_eq!(Color::try_from_hex("f+f+f+"), None);
}

#[test]
fn try_from_hex_reads_six_characters_only() {
    assert_eq!(Color::try_from_hex("ff0000 trailing"), Some(color(255, 0, 0)));
    assert_eq!(Color::try_from_hex("0102030405"), Some(color(1, 2, 3)));
    assert_eq!(Color::try_from_hex("+f+0+a"), Some(color(15, 0, 10)));
}

#[test]
fn from_chars_agrees_with_try_from_hex() {
    let chars: Vec<char> = "c0ffee".chars().collect();
    assert_eq!(Color::from_chars(&chars), Some(color(0xc0, 0xff, 0xee)));
    assert_eq!(Color::from_chars(&chars[1..]), None);
}

#[test]
fn default_config_is_black_bar_white_text() {
    let config = ConfigState::default();
    assert_eq!(config.bar_color, color(0, 0, 0));
    assert_eq!(config.text_color, color(255, 255, 255));
}

#[test]
fn empty_config_keeps_defaults() {
    assert_eq!(ConfigState::parse(""), Ok(ConfigState::default()));
    assert_eq!(ConfigState::parse("\n\n"), Ok(ConfigState::default()));
    assert_eq!(ConfigState::parse("# nothing here\nfont=big\n"), Ok(ConfigState::default()));
}

#[test]
fn config_sets_both_colours() {
    let config = ConfigState::parse("background=102030\nforeground=a0b0c0\n").unwrap();
    assert_eq!(config.bar_color, color(0x10, 0x20, 0x30));
    assert_eq!(config.text_color, color(0xa0, 0xb0, 0xc0));
}

#[test]
fn config_without_final_line_feed() {
    let config = ConfigState::parse("foreground=010203").unwrap();
    assert_eq!(config.bar_color, color(0, 0, 0));
    assert_eq!(config.text_color, color(1, 2, 3));
}

#[test]
fn config_later_line_overrides_earlier() {
    let config =
        ConfigState::parse("background=111111\nother\nbackground=222222\n").unwrap();
    assert_eq!(config.bar_color, color(0x22, 0x22, 0x22));
    assert_eq!(config.text_color, color(255, 255, 255));
}

#[test]
fn config_with_carriage_returns() {
    let config = ConfigState::parse("background=ff0000\r\nforeground=00ff00\r\n").unwrap();
    assert_eq!(config.bar_color, color(255, 0, 0));
    assert_eq!(config.text_color, color(0, 255, 0));
}

#[test]
fn config_key_must_start_the_line() {
    let config = ConfigState::parse(" background=ff0000\nBackground=ff0000\n").unwrap();
    assert_eq!(config, ConfigState::default());
}

#[test]
fn config_names_the_first_bad_line() {
    assert_eq!(ConfigState::parse("background=red"), Err(InvalidColor { line: 0 }));
    assert_eq!(
        ConfigState::parse("background=000000\n\nforeground=#ffffff\nbackground=zz\n"),
        Err(InvalidColor { line: 2 })
    );
    assert_eq!(ConfigState::parse("x\nforeground=\n"), Err(InvalidColor { line: 1 }));
    assert_eq!(ConfigState::parse("foreground=12345\r\n"), Err(InvalidColor { line: 0 }));
}

#[test]
fn config_path_lies_below_home() {
    assert_eq!(ConfigState::path_under("/home/user"), "/home/user/.config/svbar/config");
    assert_eq!(ConfigState::path_under(""), "/.config/svbar/config");
}
