use processing::color::{Color, ColorParseError};

#[test]
fn rgb_is_opaque() {
    let c = Color::rgb(10, 20, 30);
    assert_eq!(c.red, 10);
    assert_eq!(c.green, 20);
    assert_eq!(c.blue, 30);
    assert_eq!(c.alpha, 255);
}

#[test]
fn rgba_keeps_alpha() {
    let c = Color::rgba(1, 2, 3, 4);
    assert_eq!((c.red, c.green, c.blue, c.alpha), (1, 2, 3, 4));
}

#[test]
fn gray_red_green_blue_channels() {
    assert_eq!(Color::gray(7), Color::rgb(7, 7, 7));
    assert_eq!(Color::red(9), Color::rgb(9, 0, 0));
    assert_eq!(Color::green(9), Color::rgb(0, 9, 0));
    assert_eq!(Color::blue(9), Color::rgb(0, 0, 9));
}

#[test]
fn with_alpha_replaces_only_alpha() {
    let c = Color::rgb(1, 2, 3).with_alpha(9);
    assert_eq!(c, Color::rgba(1, 2, 3, 9));
}

#[test]
fn complement_inverts_channels() {
    let c = Color::rgba(0, 100, 255, 42).complement();
    assert_eq!(c, Color::rgba(255, 155, 0, 42));
}

#[test]
fn hex_word_unpacks_channels() {
    let c = Color::hex(0x112233);
    assert_eq!(c, Color::rgb(0x11, 0x22, 0x33));
    assert_eq!(c.alpha, 255);
}

#[test]
fn add_saturates_red() {
    let c = Color::rgb(200, 0, 0).add(Color::rgb(100, 0, 0));
    assert_eq!(c.red, 255);
    assert_eq!(c.green, 0);
    assert_eq!(c.blue, 0);
}

#[test]
fn add_mixes_to_yellow() {
    let c = Color::rgb(255, 0, 0).add(Color::rgb(0, 255, 0));
    assert_eq!(c, Color::rgb(255, 255, 0));
}

#[test]
fn add_alpha_is_floored_mean() {
    let c = Color::rgba(0, 0, 0, 10).add(Color::rgba(0, 0, 0, 5));
    assert_eq!(c.alpha, 7);
    let d = Color::rgba(0, 0, 0, 255).add(Color::rgba(0, 0, 0, 254));
    assert_eq!(d.alpha, 254);
}

#[test]
fn sub_floors_at_zero() {
    let c = Color::rgb(10, 50, 0).sub(Color::rgb(20, 30, 0));
    assert_eq!(c.red, 0);
    assert_eq!(c.green, 20);
    assert_eq!(c.blue, 0);
}

#[test]
fn sub_white_minus_blue_is_yellow() {
    let c = Color::rgb(255, 255, 255).sub(Color::rgb(0, 0, 255));
    assert_eq!(c.red, 255);
    assert_eq!(c.green, 255);
    assert_eq!(c.blue, 0);
}

#[test]
fn sub_alpha_is_floored_mean() {
    let c = Color::rgba(0, 0, 0, 9).sub(Color::rgba(0, 0, 0, 4));
    assert_eq!(c.alpha, 6);
}

#[test]
fn parse_three_digits_expands_nibbles() {
    assert_eq!(Color::hex_code("#fff"), Ok(Color::rgb(255, 255, 255)));
    assert_eq!(Color::hex_code("#abc"), Ok(Color::rgb(0xaa, 0xbb, 0xcc)));
    assert_eq!(Color::hex_code("fff"), Ok(Color::rgb(255, 255, 255)));
}

#[test]
fn parse_six_digits() {
    assert_eq!(Color::hex_code("#123abc"), Ok(Color::rgb(0x12, 0x3a, 0xbc)));
    assert_eq!(Color::hex_code("00FF00"), Ok(Color::rgb(0, 255, 0)));
}

#[test]
fn parse_wrong_length_is_length_error() {
    assert_eq!(Color::hex_code("#ff"), Err(ColorParseError::InvalidLength));
    assert_eq!(Color::hex_code(""), Err(ColorParseError::InvalidLength));
    assert_eq!(Color::hex_code("#1234"), Err(ColorParseError::InvalidLength));
    assert_eq!(Color::hex_code("#1234567"), Err(ColorParseError::InvalidLength));
}

#[test]
fn parse_bad_digit_names_the_first_offender() {
    assert_eq!(Color::hex_code("#gg0000"), Err(ColorParseError::InvalidHexDigit('g')));
    assert_eq!(Color::hex_code("#00g0z0"), Err(ColorParseError::InvalidHexDigit('g')));
    assert_eq!(Color::hex_code("#zzz"), Err(ColorParseError::InvalidHexDigit('z')));
}

#[test]
fn format_is_hash_and_six_lowercase_digits() {
    assert_eq!(Color::rgb(1, 2, 3).hex_string(), "#010203");
    assert_eq!(Color::rgb(255, 171, 205).hex_string(), "#ffabcd");
    assert_eq!(Color::rgb(0, 0, 0).hex_string(), "#000000");
}

#[test]
fn hex_round_trip_for_sampled_opaque_colors() {
    let samples = [0u8, 1, 7, 15, 16, 37, 127, 128, 200, 254, 255];
    for &r in &samples {
        for &g in &samples {
            for &b in &samples {
                let c = Color::rgb(r, g, b);
                assert_eq!(Color::hex_code(&c.hex_string()), Ok(c));
            }
        }
    }
}

#[test]
fn packed_is_rgba_most_significant_first() {
    assert_eq!(Color::rgba(0x11, 0x22, 0x33, 0x44).packed(), 0x11223344);
    assert_eq!(Color::rgb(255, 0, 0).packed(), 0xFF0000FF);
}

#[test]
fn format_drops_alpha() {
    assert_eq!(Color::rgba(1, 2, 3, 9).hex_string(), "#010203");
}
