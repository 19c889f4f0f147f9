//! Colours: the palette of a theme, the lookup of a terminal colour
//! (named, indexed or direct) in it, and `#rrggbb` parsing.

use vstd::prelude::*;
use vstd::string::*;
use vstd::utf8::*;

verus! {

/// A colour as red, green and blue bytes.
#[derive(Clone, Copy, Debug, PartialEq, Eq, Structural, Hash, Default)]
pub struct Rgb {
    pub r: u8,
    pub g: u8,
    pub b: u8,
}

/// Why a colour string does not parse.
#[derive(Clone, Copy, Debug, PartialEq, Eq, Structural, Hash)]
pub enum ColorError {
    /// The string is not seven bytes long.
    InvalidLength,
    /// A component is not a hexadecimal byte.
    InvalidDigit,
}

/// The value of an ASCII hexadecimal digit.
pub open spec fn hex_digit(b: u8) -> Option<int> {
    if 48 <= b <= 57 {
        Some(b - 48)
    } else if 97 <= b <= 102 {
        Some(b - 87)
    } else if 65 <= b <= 70 {
        Some(b - 55)
    } else {
        None
    }
}

/// A two-byte hexadecimal number, as `u8::from_str_radix(_, 16)` reads it:
/// two digits, or a plus sign and one digit.
pub open spec fn hex_byte(x: u8, y: u8) -> Option<u8> {
    if x == 43 {
        match hex_digit(y) {
            Some(v) => Some(v as u8),
            None => None,
        }
    } else {
        match (hex_digit(x), hex_digit(y)) {
            (Some(a), Some(b)) => Some((16 * a + b) as u8),
            _ => None,
        }
    }
}

/// A colour written in seven bytes: any first byte (normally `#`), then red,
/// green and blue as two-byte hexadecimal numbers.
pub open spec fn parse_hex_color(b: Seq<u8>) -> Result<Rgb, ColorError> {
    if b.len() != 7 {
        Err(ColorError::InvalidLength)
    } else {
        match (hex_byte(b[1], b[2]), hex_byte(b[3], b[4]), hex_byte(b[5], b[6])) {
            (Some(r), Some(g), Some(bl)) => Ok(Rgb { r, g, b: bl }),
            _ => Err(ColorError::InvalidDigit),
        }
    }
}

/// The colour a string names, read from its UTF-8 bytes.
#[verifier::opaque]
pub open spec fn color_of_text(s: Seq<char>) -> Result<Rgb, ColorError> {
    parse_hex_color(encode_utf8(s))
}

fn hex_digit_value(b: u8) -> (r: Option<u8>)
    ensures
        match r {
            Some(v) => hex_digit(b) == Some(v as int),
            None => hex_digit(b) is None,
        },
{
    if 48 <= b && b <= 57 {
        Some(b - 48)
    } else if 97 <= b && b <= 102 {
        Some(b - 87)
    } else if 65 <= b && b <= 70 {
        Some(b - 55)
    } else {
        None
    }
}

fn hex_byte_value(x: u8, y: u8) -> (r: Option<u8>)
    ensures
        r == hex_byte(x, y),
{
    if x == 43 {
        hex_digit_value(y)
    } else {
        match (hex_digit_value(x), hex_digit_value(y)) {
            (Some(a), Some(b)) => Some(16 * a + b),
            _ => None,
        }
    }
}

/// Parses a `#rrggbb` colour.
pub fn hex_to_color(hex: &str) -> (r: Result<Rgb, ColorError>)
    ensures
        r == parse_hex_color(hex.spec_bytes()),
{
    let b = hex.as_bytes();
    if b.len() != 7 {
        return Err(ColorError::InvalidLength);
    }
    match (hex_byte_value(b[1], b[2]), hex_byte_value(b[3], b[4]), hex_byte_value(b[5], b[6])) {
        (Some(r), Some(g), Some(bl)) => Ok(Rgb { r, g, b: bl }),
        _ => Err(ColorError::InvalidDigit),
    }
}

/// The colours of a theme, each as `#rrggbb`.
#[derive(Clone, Debug, PartialEq, Eq)]
pub struct ColorPalette {
    pub foreground: String,
    pub background: String,
    pub black: String,
    pub red: String,
    pub green: String,
    pub yellow: String,
    pub blue: String,
    pub magenta: String,
    pub cyan: String,
    pub white: String,
    pub bright_black: String,
    pub bright_red: String,
    pub bright_green: String,
    pub bright_yellow: String,
    pub bright_blue: String,
    pub bright_magenta: String,
    pub bright_cyan: String,
    pub bright_white: String,
    pub bright_foreground: Option<String>,
    pub dim_foreground: String,
    pub dim_black: String,
    pub dim_red: String,
    pub dim_green: String,
    pub dim_yellow: String,
    pub dim_blue: String,
    pub dim_magenta: String,
    pub dim_cyan: String,
    pub dim_white: String,
}

impl ColorPalette {
    /// Every colour of the palette parses.
    pub open spec fn valid(&self) -> bool {
        &&& color_of_text(self.foreground@) is Ok
        &&& color_of_text(self.background@) is Ok
        &&& color_of_text(self.black@) is Ok
        &&& color_of_text(self.red@) is Ok
        &&& color_of_text(self.green@) is Ok
        &&& color_of_text(self.yellow@) is Ok
        &&& color_of_text(self.blue@) is Ok
        &&& color_of_text(self.magenta@) is Ok
        &&& color_of_text(self.cyan@) is Ok
        &&& color_of_text(self.white@) is Ok
        &&& color_of_text(self.bright_black@) is Ok
        &&& color_of_text(self.bright_red@) is Ok
        &&& color_of_text(self.bright_green@) is Ok
        &&& color_of_text(self.bright_yellow@) is Ok
        &&& color_of_text(self.bright_blue@) is Ok
        &&& color_of_text(self.bright_magenta@) is Ok
        &&& color_of_text(self.bright_cyan@) is Ok
        &&& color_of_text(self.bright_white@) is Ok
        &&& (self.bright_foreground is Some ==> color_of_text(self.bright_foreground->Some_0@) is Ok)
        &&& color_of_text(self.dim_foreground@) is Ok
        &&& color_of_text(self.dim_black@) is Ok
        &&& color_of_text(self.dim_red@) is Ok
        &&& color_of_text(self.dim_green@) is Ok
        &&& color_of_text(self.dim_yellow@) is Ok
        &&& color_of_text(self.dim_blue@) is Ok
        &&& color_of_text(self.dim_magenta@) is Ok
        &&& color_of_text(self.dim_cyan@) is Ok
        &&& color_of_text(self.dim_white@) is Ok
    }

    /// Whether every colour of the palette parses.
    pub fn is_valid(&self) -> (r: bool)
        ensures
            r == self.valid(),
    {
        proof {
            reveal(color_of_text);
        }
        let foreground_ok = hex_to_color(self.foreground.as_str()).is_ok();
        let background_ok = hex_to_color(self.background.as_str()).is_ok();
        let black_ok = hex_to_color(self.black.as_str()).is_ok();
        let red_ok = hex_to_color(self.red.as_str()).is_ok();
        let green_ok = hex_to_color(self.green.as_str()).is_ok();
        let yellow_ok = hex_to_color(self.yellow.as_str()).is_ok();
        let blue_ok = hex_to_color(self.blue.as_str()).is_ok();
        let magenta_ok = hex_to_color(self.magenta.as_str()).is_ok();
        let cyan_ok = hex_to_color(self.cyan.as_str()).is_ok();
        let white_ok = hex_to_color(self.white.as_str()).is_ok();
        let bright_black_ok = hex_to_color(self.bright_black.as_str()).is_ok();
        let bright_red_ok = hex_to_color(self.bright_red.as_str()).is_ok();
        let bright_green_ok = hex_to_color(self.bright_green.as_str()).is_ok();
        let bright_yellow_ok = hex_to_color(self.bright_yellow.as_str()).is_ok();
        let bright_blue_ok = hex_to_color(self.bright_blue.as_str()).is_ok();
        let bright_magenta_ok = hex_to_color(self.bright_magenta.as_str()).is_ok();
        let bright_cyan_ok = hex_to_color(self.bright_cyan.as_str()).is_ok();
        let bright_white_ok = hex_to_color(self.bright_white.as_str()).is_ok();
        let bright_foreground_ok = match &self.bright_foreground {
            Some(s) => hex_to_color(s.as_str()).is_ok(),
            None => true,
        };
        let dim_foreground_ok = hex_to_color(self.dim_foreground.as_str()).is_ok();
        let dim_black_ok = hex_to_color(self.dim_black.as_str()).is_ok();
        let dim_red_ok = hex_to_color(self.dim_red.as_str()).is_ok();
        let dim_green_ok = hex_to_color(self.dim_green.as_str()).is_ok();
        let dim_yellow_ok = hex_to_color(self.dim_yellow.as_str()).is_ok();
        let dim_blue_ok = hex_to_color(self.dim_blue.as_str()).is_ok();
        let dim_magenta_ok = hex_to_color(self.dim_magenta.as_str()).is_ok();
        let dim_cyan_ok = hex_to_color(self.dim_cyan.as_str()).is_ok();
        let dim_white_ok = hex_to_color(self.dim_white.as_str()).is_ok();
        foreground_ok && background_ok && black_ok && red_ok && green_ok && yellow_ok && blue_ok && magenta_ok && cyan_ok && white_ok && bright_black_ok && bright_red_ok && bright_green_ok && bright_yellow_ok && bright_blue_ok && bright_magenta_ok && bright_cyan_ok && bright_white_ok && bright_foreground_ok && dim_foreground_ok && dim_black_ok && dim_red_ok && dim_green_ok && dim_yellow_ok && dim_blue_ok && dim_magenta_ok && dim_cyan_ok && dim_white_ok
    }
}

impl Default for ColorPalette {
    fn default() -> (r: ColorPalette)
        ensures
            r.valid(),
            r.foreground@ == "#d8d8d8"@,
            r.background@ == "#181818"@,
            r.black@ == "#181818"@,
            r.red@ == "#ac4242"@,
            r.green@ == "#90a959"@,
            r.yellow@ == "#f4bf75"@,
            r.blue@ == "#6a9fb5"@,
            r.magenta@ == "#aa759f"@,
            r.cyan@ == "#75b5aa"@,
            r.white@ == "#d8d8d8"@,
            r.bright_black@ == "#6b6b6b"@,
            r.bright_red@ == "#c55555"@,
            r.bright_green@ == "#aac474"@,
            r.bright_yellow@ == "#feca88"@,
            r.bright_blue@ == "#82b8c8"@,
            r.bright_magenta@ == "#c28cb8"@,
            r.bright_cyan@ == "#93d3c3"@,
            r.bright_white@ == "#f8f8f8"@,
            r.bright_foreground is None,
            r.dim_foreground@ == "#828482"@,
            r.dim_black@ == "#0f0f0f"@,
            r.dim_red@ == "#712b2b"@,
            r.dim_green@ == "#5f6f3a"@,
            r.dim_yellow@ == "#a17e4d"@,
            r.dim_blue@ == "#456877"@,
            r.dim_magenta@ == "#704d68"@,
            r.dim_cyan@ == "#4d7770"@,
            r.dim_white@ == "#8e8e8e"@,
    {
        proof {
            lemma_parses_d8d8d8();
            lemma_parses_181818();
            lemma_parses_ac4242();
            lemma_parses_90a959();
            lemma_parses_f4bf75();
            lemma_parses_6a9fb5();
            lemma_parses_aa759f();
            lemma_parses_75b5aa();
            lemma_parses_6b6b6b();
            lemma_parses_c55555();
            lemma_parses_aac474();
            lemma_parses_feca88();
            lemma_parses_82b8c8();
            lemma_parses_c28cb8();
            lemma_parses_93d3c3();
            lemma_parses_f8f8f8();
            lemma_parses_828482();
            lemma_parses_0f0f0f();
            lemma_parses_712b2b();
            lemma_parses_5f6f3a();
            lemma_parses_a17e4d();
            lemma_parses_456877();
            lemma_parses_704d68();
            lemma_parses_4d7770();
            lemma_parses_8e8e8e();
        }
        ColorPalette {
            foreground: String::from_str("#d8d8d8"),
            background: String::from_str("#181818"),
            black: String::from_str("#181818"),
            red: String::from_str("#ac4242"),
            green: String::from_str("#90a959"),
            yellow: String::from_str("#f4bf75"),
            blue: String::from_str("#6a9fb5"),
            magenta: String::from_str("#aa759f"),
            cyan: String::from_str("#75b5aa"),
            white: String::from_str("#d8d8d8"),
            bright_black: String::from_str("#6b6b6b"),
            bright_red: String::from_str("#c55555"),
            bright_green: String::from_str("#aac474"),
            bright_yellow: String::from_str("#feca88"),
            bright_blue: String::from_str("#82b8c8"),
            bright_magenta: String::from_str("#c28cb8"),
            bright_cyan: String::from_str("#93d3c3"),
            bright_white: String::from_str("#f8f8f8"),
            bright_foreground: None,
            dim_foreground: String::from_str("#828482"),
            dim_black: String::from_str("#0f0f0f"),
            dim_red: String::from_str("#712b2b"),
            dim_green: String::from_str("#5f6f3a"),
            dim_yellow: String::from_str("#a17e4d"),
            dim_blue: String::from_str("#456877"),
            dim_magenta: String::from_str("#704d68"),
            dim_cyan: String::from_str("#4d7770"),
            dim_white: String::from_str("#8e8e8e"),
        }
    }
}

proof fn lemma_parses_d8d8d8()
    ensures
        color_of_text("#d8d8d8"@) is Ok,
{
    reveal(color_of_text);
    reveal_strlit("#d8d8d8");
    assert(is_ascii_chars("#d8d8d8"@));
    lemma_ascii_bytes("#d8d8d8"@);
}

proof fn lemma_parses_181818()
    ensures
        color_of_text("#181818"@) is Ok,
{
    reveal(color_of_text);
    reveal_strlit("#181818");
    assert(is_ascii_chars("#181818"@));
    lemma_ascii_bytes("#181818"@);
}

proof fn lemma_parses_ac4242()
    ensures
        color_of_text("#ac4242"@) is Ok,
{
    reveal(color_of_text);
    reveal_strlit("#ac4242");
    assert(is_ascii_chars("#ac4242"@));
    lemma_ascii_bytes("#ac4242"@);
}

proof fn lemma_parses_90a959()
    ensures
        color_of_text("#90a959"@) is Ok,
{
    reveal(color_of_text);
    reveal_strlit("#90a959");
    assert(is_ascii_chars("#90a959"@));
    lemma_ascii_bytes("#90a959"@);
}

proof fn lemma_parses_f4bf75()
    ensures
        color_of_text("#f4bf75"@) is Ok,
{
    reveal(color_of_text);
    reveal_strlit("#f4bf75");
    assert(is_ascii_chars("#f4bf75"@));
    lemma_ascii_bytes("#f4bf75"@);
}

proof fn lemma_parses_6a9fb5()
    ensures
        color_of_text("#6a9fb5"@) is Ok,
{
    reveal(color_of_text);
    reveal_strlit("#6a9fb5");
    assert(is_ascii_chars("#6a9fb5"@));
    lemma_ascii_bytes("#6a9fb5"@);
}

proof fn lemma_parses_aa759f()
    ensures
        color_of_text("#aa759f"@) is Ok,
{
    reveal(color_of_text);
    reveal_strlit("#aa759f");
    assert(is_ascii_chars("#aa759f"@));
    lemma_ascii_bytes("#aa759f"@);
}

proof fn lemma_parses_75b5aa()
    ensures
        color_of_text("#75b5aa"@) is Ok,
{
    reveal(color_of_text);
    reveal_strlit("#75b5aa");
    assert(is_ascii_chars("#75b5aa"@));
    lemma_ascii_bytes("#75b5aa"@);
}

proof fn lemma_parses_6b6b6b()
    ensures
        color_of_text("#6b6b6b"@) is Ok,
{
    reveal(color_of_text);
    reveal_strlit("#6b6b6b");
    assert(is_ascii_chars("#6b6b6b"@));
    lemma_ascii_bytes("#6b6b6b"@);
}

proof fn lemma_parses_c55555()
    ensures
        color_of_text("#c55555"@) is Ok,
{
    reveal(color_of_text);
    reveal_strlit("#c55555");
    assert(is_ascii_chars("#c55555"@));
    lemma_ascii_bytes("#c55555"@);
}

proof fn lemma_parses_aac474()
    ensures
        color_of_text("#aac474"@) is Ok,
{
    reveal(color_of_text);
    reveal_strlit("#aac474");
    assert(is_ascii_chars("#aac474"@));
    lemma_ascii_bytes("#aac474"@);
}

proof fn lemma_parses_feca88()
    ensures
        color_of_text("#feca88"@) is Ok,
{
    reveal(color_of_text);
    reveal_strlit("#feca88");
    assert(is_ascii_chars("#feca88"@));
    lemma_ascii_bytes("#feca88"@);
}

proof fn lemma_parses_82b8c8()
    ensures
        color_of_text("#82b8c8"@) is Ok,
{
    reveal(color_of_text);
    reveal_strlit("#82b8c8");
    assert(is_ascii_chars("#82b8c8"@));
    lemma_ascii_bytes("#82b8c8"@);
}

proof fn lemma_parses_c28cb8()
    ensures
        color_of_text("#c28cb8"@) is Ok,
{
    reveal(color_of_text);
    reveal_strlit("#c28cb8");
    assert(is_ascii_chars("#c28cb8"@));
    lemma_ascii_bytes("#c28cb8"@);
}

proof fn lemma_parses_93d3c3()
    ensures
        color_of_text("#93d3c3"@) is Ok,
{
    reveal(color_of_text);
    reveal_strlit("#93d3c3");
    assert(is_ascii_chars("#93d3c3"@));
    lemma_ascii_bytes("#93d3c3"@);
}

proof fn lemma_parses_f8f8f8()
    ensures
        color_of_text("#f8f8f8"@) is Ok,
{
    reveal(color_of_text);
    reveal_strlit("#f8f8f8");
    assert(is_ascii_chars("#f8f8f8"@));
    lemma_ascii_bytes("#f8f8f8"@);
}

proof fn lemma_parses_828482()
    ensures
        color_of_text("#828482"@) is Ok,
{
    reveal(color_of_text);
    reveal_strlit("#828482");
    assert(is_ascii_chars("#828482"@));
    lemma_ascii_bytes("#828482"@);
}

proof fn lemma_parses_0f0f0f()
    ensures
        color_of_text("#0f0f0f"@) is Ok,
{
    reveal(color_of_text);
    reveal_strlit("#0f0f0f");
    assert(is_ascii_chars("#0f0f0f"@));
    lemma_ascii_bytes("#0f0f0f"@);
}

proof fn lemma_parses_712b2b()
    ensures
        color_of_text("#712b2b"@) is Ok,
{
    reveal(color_of_text);
    reveal_strlit("#712b2b");
    assert(is_ascii_chars("#712b2b"@));
    lemma_ascii_bytes("#712b2b"@);
}

proof fn lemma_parses_5f6f3a()
    ensures
        color_of_text("#5f6f3a"@) is Ok,
{
    reveal(color_of_text);
    reveal_strlit("#5f6f3a");
    assert(is_ascii_chars("#5f6f3a"@));
    lemma_ascii_bytes("#5f6f3a"@);
}

proof fn lemma_parses_a17e4d()
    ensures
        color_of_text("#a17e4d"@) is Ok,
{
    reveal(color_of_text);
    reveal_strlit("#a17e4d");
    assert(is_ascii_chars("#a17e4d"@));
    lemma_ascii_bytes("#a17e4d"@);
}

proof fn lemma_parses_456877()
    ensures
        color_of_text("#456877"@) is Ok,
{
    reveal(color_of_text);
    reveal_strlit("#456877");
    assert(is_ascii_chars("#456877"@));
    lemma_ascii_bytes("#456877"@);
}

proof fn lemma_parses_704d68()
    ensures
        color_of_text("#704d68"@) is Ok,
{
    reveal(color_of_text);
    reveal_strlit("#704d68");
    assert(is_ascii_chars("#704d68"@));
    lemma_ascii_bytes("#704d68"@);
}

proof fn lemma_parses_4d7770()
    ensures
        color_of_text("#4d7770"@) is Ok,
{
    reveal(color_of_text);
    reveal_strlit("#4d7770");
    assert(is_ascii_chars("#4d7770"@));
    lemma_ascii_bytes("#4d7770"@);
}

proof fn lemma_parses_8e8e8e()
    ensures
        color_of_text("#8e8e8e"@) is Ok,
{
    reveal(color_of_text);
    reveal_strlit("#8e8e8e");
    assert(is_ascii_chars("#8e8e8e"@));
    lemma_ascii_bytes("#8e8e8e"@);
}

/// An ASCII string is encoded byte for byte.
proof fn lemma_ascii_bytes(s: Seq<char>)
    requires
        is_ascii_chars(s),
    ensures
        encode_utf8(s) =~= s.map_values(|c: char| c as u8),
{
    is_ascii_chars_encode_utf8(s);
}

/// A named terminal colour.
#[derive(Clone, Copy, Debug, PartialEq, Eq, Structural, Hash)]
pub enum NamedColor {
    Black,
    Red,
    Green,
    Yellow,
    Blue,
    Magenta,
    Cyan,
    White,
    BrightBlack,
    BrightRed,
    BrightGreen,
    BrightYellow,
    BrightBlue,
    BrightMagenta,
    BrightCyan,
    BrightWhite,
    Foreground,
    Background,
    Cursor,
    DimBlack,
    DimRed,
    DimGreen,
    DimYellow,
    DimBlue,
    DimMagenta,
    DimCyan,
    DimWhite,
    BrightForeground,
    DimForeground,
}

/// A terminal colour: named, one of the 256 indexed colours, or direct.
#[derive(Clone, Copy, Debug, PartialEq, Eq, Structural, Hash)]
pub enum VtColor {
    Named(NamedColor),
    Spec(Rgb),
    Indexed(u8),
}

/// The palette entry that a named colour takes; the bright foreground falls
/// back to the foreground, and the cursor takes the background.
pub open spec fn named_entry(p: ColorPalette, n: NamedColor) -> Seq<char> {
    match n {
        NamedColor::Black => p.black@,
        NamedColor::Red => p.red@,
        NamedColor::Green => p.green@,
        NamedColor::Yellow => p.yellow@,
        NamedColor::Blue => p.blue@,
        NamedColor::Magenta => p.magenta@,
        NamedColor::Cyan => p.cyan@,
        NamedColor::White => p.white@,
        NamedColor::BrightBlack => p.bright_black@,
        NamedColor::BrightRed => p.bright_red@,
        NamedColor::BrightGreen => p.bright_green@,
        NamedColor::BrightYellow => p.bright_yellow@,
        NamedColor::BrightBlue => p.bright_blue@,
        NamedColor::BrightMagenta => p.bright_magenta@,
        NamedColor::BrightCyan => p.bright_cyan@,
        NamedColor::BrightWhite => p.bright_white@,
        NamedColor::Foreground => p.foreground@,
        NamedColor::Background => p.background@,
        NamedColor::Cursor => p.background@,
        NamedColor::DimBlack => p.dim_black@,
        NamedColor::DimRed => p.dim_red@,
        NamedColor::DimGreen => p.dim_green@,
        NamedColor::DimYellow => p.dim_yellow@,
        NamedColor::DimBlue => p.dim_blue@,
        NamedColor::DimMagenta => p.dim_magenta@,
        NamedColor::DimCyan => p.dim_cyan@,
        NamedColor::DimWhite => p.dim_white@,
        NamedColor::BrightForeground => match p.bright_foreground {
            Some(s) => s@,
            None => p.foreground@,
        },
        NamedColor::DimForeground => p.dim_foreground@,
    }
}

/// The palette entry of one of the first 16 indexed colours.
pub open spec fn indexed_entry(p: ColorPalette, i: u8) -> Seq<char> {
    if i == 0 {
        p.black@
    } else if i == 1 {
        p.red@
    } else if i == 2 {
        p.green@
    } else if i == 3 {
        p.yellow@
    } else if i == 4 {
        p.blue@
    } else if i == 5 {
        p.magenta@
    } else if i == 6 {
        p.cyan@
    } else if i == 7 {
        p.white@
    } else if i == 8 {
        p.bright_black@
    } else if i == 9 {
        p.bright_red@
    } else if i == 10 {
        p.bright_green@
    } else if i == 11 {
        p.bright_yellow@
    } else if i == 12 {
        p.bright_blue@
    } else if i == 13 {
        p.bright_magenta@
    } else if i == 14 {
        p.bright_cyan@
    } else if i == 15 {
        p.bright_white@
    } else {
        p.background@
    }
}

/// One of the 240 colours after the first 16: a 6x6x6 cube of levels 0,
/// 95, 135, 175, 215, 255 from 16 to 231, then 24 greys from 8 to 238.
pub open spec fn ansi256_rgb(i: int) -> Rgb {
    if i < 232 {
        Rgb {
            r: cube_level((i - 16) / 36),
            g: cube_level((i - 16) / 6 % 6),
            b: cube_level((i - 16) % 6),
        }
    } else {
        let v = ((i - 232) * 10 + 8) as u8;
        Rgb { r: v, g: v, b: v }
    }
}

pub open spec fn cube_level(v: int) -> u8 {
    if v == 0 {
        0
    } else {
        (v * 40 + 55) as u8
    }
}

/// The colour of a terminal colour in a palette: a direct colour is itself;
/// the first 16 indexed colours and the named colours come from the palette;
/// the other indexed colours are fixed.
pub open spec fn theme_color(p: ColorPalette, c: VtColor) -> Rgb {
    match c {
        VtColor::Spec(rgb) => rgb,
        VtColor::Indexed(i) => if i <= 15 {
            color_of_text(indexed_entry(p, i))->Ok_0
        } else {
            ansi256_rgb(i as int)
        },
        VtColor::Named(n) => color_of_text(named_entry(p, n))->Ok_0,
    }
}

proof fn lemma_named_entry_parses(p: ColorPalette, n: NamedColor)
    requires
        p.valid(),
    ensures
        color_of_text(named_entry(p, n)) is Ok,
{
}

proof fn lemma_indexed_entry_parses(p: ColorPalette, i: u8)
    requires
        p.valid(),
        i <= 15,
    ensures
        color_of_text(indexed_entry(p, i)) is Ok,
{
}

fn cube_level_value(v: u8) -> (r: u8)
    requires
        v < 6,
    ensures
        r == cube_level(v as int),
{
    if v == 0 {
        0
    } else {
        v * 40 + 55
    }
}

/// One of the 240 colours after the first 16.
pub fn ansi256_color(i: u8) -> (r: Rgb)
    requires
        i >= 16,
    ensures
        r == ansi256_rgb(i as int),
{
    if i < 232 {
        let k = i - 16;
        Rgb {
            r: cube_level_value(k / 36),
            g: cube_level_value(k / 6 % 6),
            b: cube_level_value(k % 6),
        }
    } else {
        let v = (i - 232) * 10 + 8;
        Rgb { r: v, g: v, b: v }
    }
}

/// A palette with the table of the 240 fixed colours.
#[derive(Clone, Debug)]
pub struct TermTheme {
    palette: Box<ColorPalette>,
    ansi256_colors: Vec<Rgb>,
}

impl TermTheme {
    pub closed spec fn spec_palette(&self) -> ColorPalette {
        *self.palette
    }

    /// The palette parses and the table holds the fixed colours in order.
    pub closed spec fn wf(&self) -> bool {
        &&& self.palette.valid()
        &&& self.ansi256_colors@.len() == 240
        &&& forall|k: int| 0 <= k < 240 ==> #[trigger] self.ansi256_colors@[k] == ansi256_rgb(k + 16)
    }

    pub fn new(palette: Box<ColorPalette>) -> (r: TermTheme)
        requires
            palette.valid(),
        ensures
            r.wf(),
            r.spec_palette() == *palette,
    {
        TermTheme { palette, ansi256_colors: TermTheme::get_ansi256_colors() }
    }

    /// The palette.
    pub fn palette(&self) -> (r: &ColorPalette)
        ensures
            *r == self.spec_palette(),
    {
        &self.palette
    }

    fn get_ansi256_colors() -> (r: Vec<Rgb>)
        ensures
            r@.len() == 240,
            forall|k: int| 0 <= k < 240 ==> #[trigger] r@[k] == ansi256_rgb(k + 16),
    {
        let mut colors: Vec<Rgb> = Vec::new();
        let mut i: u16 = 16;
        while i < 256
            invariant
                16 <= i <= 256,
                colors@.len() == i - 16,
                forall|k: int| 0 <= k < colors@.len() ==> #[trigger] colors@[k] == ansi256_rgb(k + 16),
            decreases 256 - i,
        {
            colors.push(ansi256_color(i as u8));
            i = i + 1;
        }
        colors
    }

    fn named_entry(&self, n: NamedColor) -> (r: &str)
        ensures
            r@ == named_entry(*self.palette, n),
    {
        match n {
            NamedColor::Black => self.palette.black.as_str(),
            NamedColor::Red => self.palette.red.as_str(),
            NamedColor::Green => self.palette.green.as_str(),
            NamedColor::Yellow => self.palette.yellow.as_str(),
            NamedColor::Blue => self.palette.blue.as_str(),
            NamedColor::Magenta => self.palette.magenta.as_str(),
            NamedColor::Cyan => self.palette.cyan.as_str(),
            NamedColor::White => self.palette.white.as_str(),
            NamedColor::BrightBlack => self.palette.bright_black.as_str(),
            NamedColor::BrightRed => self.palette.bright_red.as_str(),
            NamedColor::BrightGreen => self.palette.bright_green.as_str(),
            NamedColor::BrightYellow => self.palette.bright_yellow.as_str(),
            NamedColor::BrightBlue => self.palette.bright_blue.as_str(),
            NamedColor::BrightMagenta => self.palette.bright_magenta.as_str(),
            NamedColor::BrightCyan => self.palette.bright_cyan.as_str(),
            NamedColor::BrightWhite => self.palette.bright_white.as_str(),
            NamedColor::Foreground => self.palette.foreground.as_str(),
            NamedColor::Background => self.palette.background.as_str(),
            NamedColor::Cursor => self.palette.background.as_str(),
            NamedColor::DimBlack => self.palette.dim_black.as_str(),
            NamedColor::DimRed => self.palette.dim_red.as_str(),
            NamedColor::DimGreen => self.palette.dim_green.as_str(),
            NamedColor::DimYellow => self.palette.dim_yellow.as_str(),
            NamedColor::DimBlue => self.palette.dim_blue.as_str(),
            NamedColor::DimMagenta => self.palette.dim_magenta.as_str(),
            NamedColor::DimCyan => self.palette.dim_cyan.as_str(),
            NamedColor::DimWhite => self.palette.dim_white.as_str(),
            NamedColor::BrightForeground => match &self.palette.bright_foreground {
                Some(s) => s.as_str(),
                None => self.palette.foreground.as_str(),
            },
            NamedColor::DimForeground => self.palette.dim_foreground.as_str(),
        }
    }

    fn indexed_entry(&self, i: u8) -> (r: &str)
        requires
            i <= 15,
        ensures
            r@ == indexed_entry(*self.palette, i),
    {
        match i {
            0 => self.palette.black.as_str(),
            1 => self.palette.red.as_str(),
            2 => self.palette.green.as_str(),
            3 => self.palette.yellow.as_str(),
            4 => self.palette.blue.as_str(),
            5 => self.palette.magenta.as_str(),
            6 => self.palette.cyan.as_str(),
            7 => self.palette.white.as_str(),
            8 => self.palette.bright_black.as_str(),
            9 => self.palette.bright_red.as_str(),
            10 => self.palette.bright_green.as_str(),
            11 => self.palette.bright_yellow.as_str(),
            12 => self.palette.bright_blue.as_str(),
            13 => self.palette.bright_magenta.as_str(),
            14 => self.palette.bright_cyan.as_str(),
            15 => self.palette.bright_white.as_str(),
            _ => self.palette.background.as_str(),
        }
    }

    /// The colour of a terminal colour in this theme.
    pub fn get_color(&self, c: VtColor) -> (r: Rgb)
        requires
            self.wf(),
        ensures
            r == theme_color(self.spec_palette(), c),
    {
        proof {
            reveal(color_of_text);
        }
        match c {
            VtColor::Spec(rgb) => rgb,
            VtColor::Indexed(index) => {
                if index <= 15 {
                    proof {
                        lemma_indexed_entry_parses(*self.palette, index);
                    }
                    match hex_to_color(self.indexed_entry(index)) {
                        Ok(color) => color,
                        Err(_) => Rgb { r: 0, g: 0, b: 0 },
                    }
                } else {
                    self.ansi256_colors[index as usize - 16]
                }
            },
            VtColor::Named(n) => {
                proof {
                    lemma_named_entry_parses(*self.palette, n);
                }
                match hex_to_color(self.named_entry(n)) {
                    Ok(color) => color,
                    Err(_) => Rgb { r: 0, g: 0, b: 0 },
                }
            },
        }
    }
}

impl Default for TermTheme {
    fn default() -> (r: TermTheme)
        ensures
            r.wf(),
    {
        TermTheme::new(Box::new(ColorPalette::default()))
    }
}

} // verus!
