use iced_term::settings::ThemeSettings;
use iced_term::theme::{
    ansi256_color, hex_to_color, ColorError, ColorPalette, NamedColor, Rgb, TermTheme, VtColor,
};

#[test]
fn hex_to_color_valid_convertion() {
    assert!(hex_to_color("#000000").is_ok())
}

#[test]
fn hex_to_color_short_string() {
    assert!(hex_to_color("GG").is_err());
}

#[test]
fn hex_to_color_long_string() {
    assert!(hex_to_color("GG000000").is_err());
}

#[test]
fn hex_to_color_non_valid_hex_string() {
    assert!(hex_to_color("#KKLLOO").is_err());
}

#[test]
fn get_basic_indexed_colors() {
    let default_theme = TermTheme::default();
    let palette = default_theme.palette();
    let expected = [
        &palette.black,
        &palette.red,
        &palette.green,
        &palette.yellow,
        &palette.blue,
        &palette.magenta,
        &palette.cyan,
        &palette.white,
        &palette.bright_black,
        &palette.bright_red,
        &palette.bright_green,
        &palette.bright_yellow,
        &palette.bright_blue,
        &palette.bright_magenta,
        &palette.bright_cyan,
        &palette.bright_white,
    ];

    for index in 0..16u8 {
        let color = default_theme.get_color(VtColor::Indexed(index));
        let expected_color = expected[index as usize];
        assert_eq!(color, hex_to_color(expected_color).unwrap())
    }
}

#[test]
fn hex_components_are_read_in_order() {
    assert_eq!(hex_to_color("#ac4290"), Ok(Rgb { r: 0xac, g: 0x42, b: 0x90 }));
    assert_eq!(hex_to_color("#A0b1C2"), Ok(Rgb { r: 0xa0, g: 0xb1, b: 0xc2 }));
}

#[test]
fn hex_errors_say_why() {
    assert_eq!(hex_to_color("#12345"), Err(ColorError::InvalidLength));
    assert_eq!(hex_to_color("#12g456"), Err(ColorError::InvalidDigit));
    assert_eq!(hex_to_color("#-12345"), Err(ColorError::InvalidDigit));
}

#[test]
fn hex_component_may_carry_a_plus_sign() {
    assert_eq!(hex_to_color("#+f+0+1"), Ok(Rgb { r: 15, g: 0, b: 1 }));
}

#[test]
fn cube_and_grey_colors() {
    assert_eq!(ansi256_color(16), Rgb { r: 0, g: 0, b: 0 });
    assert_eq!(ansi256_color(17), Rgb { r: 0, g: 0, b: 95 });
    assert_eq!(ansi256_color(16 + 36 * 2 + 6 * 3 + 4), Rgb { r: 135, g: 175, b: 215 });
    assert_eq!(ansi256_color(231), Rgb { r: 255, g: 255, b: 255 });
    assert_eq!(ansi256_color(232), Rgb { r: 8, g: 8, b: 8 });
    assert_eq!(ansi256_color(255), Rgb { r: 238, g: 238, b: 238 });
    let theme = TermTheme::default();
    assert_eq!(theme.get_color(VtColor::Indexed(100)), ansi256_color(100));
}

#[test]
fn named_and_direct_colors() {
    let theme = TermTheme::default();
    assert_eq!(theme.get_color(VtColor::Named(NamedColor::Foreground)), Rgb { r: 0xd8, g: 0xd8, b: 0xd8 });
    assert_eq!(theme.get_color(VtColor::Named(NamedColor::DimRed)), Rgb { r: 0x71, g: 0x2b, b: 0x2b });
    assert_eq!(theme.get_color(VtColor::Named(NamedColor::Cursor)), Rgb { r: 0x18, g: 0x18, b: 0x18 });
    assert_eq!(
        theme.get_color(VtColor::Named(NamedColor::BrightForeground)),
        Rgb { r: 0xd8, g: 0xd8, b: 0xd8 }
    );
    assert_eq!(theme.get_color(VtColor::Spec(Rgb { r: 1, g: 2, b: 3 })), Rgb { r: 1, g: 2, b: 3 });
}

#[test]
fn bright_foreground_when_set() {
    let mut palette = ColorPalette::default();
    palette.bright_foreground = Some(String::from("#010203"));
    assert!(palette.is_valid());
    let theme = TermTheme::new(Box::new(palette));
    assert_eq!(
        theme.get_color(VtColor::Named(NamedColor::BrightForeground)),
        Rgb { r: 1, g: 2, b: 3 }
    );
}

#[test]
fn invalid_palette_is_detected() {
    let mut palette = ColorPalette::default();
    palette.dim_cyan = String::from("cyan");
    assert!(!palette.is_valid());
    assert!(ThemeSettings::default().color_pallete.is_valid());
}
