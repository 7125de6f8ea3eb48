//! 8-bit RGBA color values with saturating arithmetic and a hex-string codec.

use vstd::prelude::*;

verus! {

/// An 8-bit RGBA color. Channels are independent; nothing is premultiplied.
#[derive(Debug, Clone, Copy, PartialEq, Eq, Structural)]
pub struct Color {
    pub alpha: u8,
    pub red: u8,
    pub green: u8,
    pub blue: u8,
}

/// Saturating channel addition: the sum, capped at the channel maximum.
pub open spec fn sat_add(a: int, b: int) -> int {
    if a + b > 255 {
        255
    } else {
        a + b
    }
}

/// Saturating channel subtraction: the difference, floored at zero.
pub open spec fn sat_sub(a: int, b: int) -> int {
    if a - b < 0 {
        0
    } else {
        a - b
    }
}

/// Alpha of a mixed color: the arithmetic mean of the inputs, rounded down.
pub open spec fn mean_alpha(a: int, b: int) -> int {
    (a + b) / 2
}

impl Color {
    pub fn rgb(red: u8, green: u8, blue: u8) -> (c: Color)
        ensures
            c == (Color { red, green, blue, alpha: 255u8 }),
    {
        Color { red, green, blue, alpha: 255 }
    }

    pub fn rgba(red: u8, green: u8, blue: u8, alpha: u8) -> (c: Color)
        ensures
            c == (Color { red, green, blue, alpha }),
    {
        Color { red, green, blue, alpha }
    }

    /// The color packed in the low 24 bits of a word, high byte ignored,
    /// alpha forced opaque.
    pub fn hex(hex: u32) -> (c: Color)
        ensures
            c.red == ((hex >> 16) & 0xff) as u8,
            c.green == ((hex >> 8) & 0xff) as u8,
            c.blue == (hex & 0xff) as u8,
            c.alpha == 255u8,
    {
        Color {
            alpha: 255,
            red: ((hex >> 16) & 0xff) as u8,
            green: ((hex >> 8) & 0xff) as u8,
            blue: (hex & 0xff) as u8,
        }
    }

    pub fn gray(value: u8) -> (c: Color)
        ensures
            c == (Color { red: value, green: value, blue: value, alpha: 255u8 }),
    {
        Color { red: value, green: value, blue: value, alpha: 255 }
    }

    pub fn red(value: u8) -> (c: Color)
        ensures
            c == (Color { red: value, green: 0u8, blue: 0u8, alpha: 255u8 }),
    {
        Color { red: value, green: 0, blue: 0, alpha: 255 }
    }

    pub fn green(value: u8) -> (c: Color)
        ensures
            c == (Color { red: 0u8, green: value, blue: 0u8, alpha: 255u8 }),
    {
        Color { red: 0, green: value, blue: 0, alpha: 255 }
    }

    pub fn blue(value: u8) -> (c: Color)
        ensures
            c == (Color { red: 0u8, green: 0u8, blue: value, alpha: 255u8 }),
    {
        Color { red: 0, green: 0, blue: value, alpha: 255 }
    }

    pub fn with_alpha(self, alpha: u8) -> (c: Color)
        ensures
            c == (Color { alpha, ..self }),
    {
        Color { alpha, ..self }
    }

    /// The complement inverts each color channel and keeps alpha.
    pub fn complement(self) -> (c: Color)
        ensures
            c.red == 255 - self.red,
            c.green == 255 - self.green,
            c.blue == 255 - self.blue,
            c.alpha == self.alpha,
    {
        Color {
            red: 255 - self.red,
            green: 255 - self.green,
            blue: 255 - self.blue,
            alpha: self.alpha,
        }
    }

    /// Additive mixing: channels saturate, alpha is the mean of the inputs.
    pub fn add(self, other: Color) -> (c: Color)
        ensures
            c.red as int == sat_add(self.red as int, other.red as int),
            c.green as int == sat_add(self.green as int, other.green as int),
            c.blue as int == sat_add(self.blue as int, other.blue as int),
            c.alpha as int == mean_alpha(self.alpha as int, other.alpha as int),
    {
        Color {
            red: sat_add_u8(self.red, other.red),
            green: sat_add_u8(self.green, other.green),
            blue: sat_add_u8(self.blue, other.blue),
            alpha: ((self.alpha as u16 + other.alpha as u16) / 2) as u8,
        }
    }

    /// The color packed into one word: red in the high byte, then green,
    /// blue and alpha.
    pub fn packed(self) -> (r: u32)
        ensures
            r == (self.red as u32) << 24 | (self.green as u32) << 16 | (self.blue as u32) << 8
                | (self.alpha as u32),
    {
        (self.red as u32) << 24 | (self.green as u32) << 16 | (self.blue as u32) << 8
            | (self.alpha as u32)
    }

    /// Subtractive mixing: channels floor at zero, alpha is the mean.
    pub fn sub(self, other: Color) -> (c: Color)
        ensures
            c.red as int == sat_sub(self.red as int, other.red as int),
            c.green as int == sat_sub(self.green as int, other.green as int),
            c.blue as int == sat_sub(self.blue as int, other.blue as int),
            c.alpha as int == mean_alpha(self.alpha as int, other.alpha as int),
    {
        Color {
            red: sat_sub_u8(self.red, other.red),
            green: sat_sub_u8(self.green, other.green),
            blue: sat_sub_u8(self.blue, other.blue),
            alpha: ((self.alpha as u16 + other.alpha as u16) / 2) as u8,
        }
    }
}

/// The errors of the hex-string color parser.
#[derive(Debug, Clone, Copy, PartialEq, Eq, Structural)]
pub enum ColorParseError {
    /// A character outside `0-9`, `a-f`, `A-F` stood where a digit was owed.
    InvalidHexDigit(char),
    /// After the optional leading `#`, the digit count was neither 3 nor 6.
    InvalidLength,
}

/// The numeric value of a hex digit, or a negative number for any other
/// character.
pub open spec fn hex_digit_value(c: char) -> int {
    if '0' as int <= c as int && c as int <= '9' as int {
        c as int - '0' as int
    } else if 'a' as int <= c as int && c as int <= 'f' as int {
        c as int - 'a' as int + 10
    } else if 'A' as int <= c as int && c as int <= 'F' as int {
        c as int - 'A' as int + 10
    } else {
        -1
    }
}

pub open spec fn is_hex_digit(c: char) -> bool {
    hex_digit_value(c) >= 0
}

/// The input without its single leading `#`, if it has one.
pub open spec fn strip_hash(s: Seq<char>) -> Seq<char> {
    if s.len() > 0 && s[0] == '#' {
        s.subrange(1, s.len() as int)
    } else {
        s
    }
}

/// What parsing a hex color string returns: `#` is optional; three digits
/// expand each nibble by 17; six digits give the three channels; alpha is
/// always opaque. The first offending character decides the digit error;
/// any other digit count is a length error.
pub open spec fn spec_parse_hex(raw: Seq<char>) -> Result<Color, ColorParseError> {
    let s = strip_hash(raw);
    if s.len() == 3 {
        if !is_hex_digit(s[0]) {
            Err(ColorParseError::InvalidHexDigit(s[0]))
        } else if !is_hex_digit(s[1]) {
            Err(ColorParseError::InvalidHexDigit(s[1]))
        } else if !is_hex_digit(s[2]) {
            Err(ColorParseError::InvalidHexDigit(s[2]))
        } else {
            Ok(Color {
                red: (hex_digit_value(s[0]) * 17) as u8,
                green: (hex_digit_value(s[1]) * 17) as u8,
                blue: (hex_digit_value(s[2]) * 17) as u8,
                alpha: 255u8,
            })
        }
    } else if s.len() == 6 {
        if !is_hex_digit(s[0]) {
            Err(ColorParseError::InvalidHexDigit(s[0]))
        } else if !is_hex_digit(s[1]) {
            Err(ColorParseError::InvalidHexDigit(s[1]))
        } else if !is_hex_digit(s[2]) {
            Err(ColorParseError::InvalidHexDigit(s[2]))
        } else if !is_hex_digit(s[3]) {
            Err(ColorParseError::InvalidHexDigit(s[3]))
        } else if !is_hex_digit(s[4]) {
            Err(ColorParseError::InvalidHexDigit(s[4]))
        } else if !is_hex_digit(s[5]) {
            Err(ColorParseError::InvalidHexDigit(s[5]))
        } else {
            Ok(Color {
                red: (hex_digit_value(s[0]) * 16 + hex_digit_value(s[1])) as u8,
                green: (hex_digit_value(s[2]) * 16 + hex_digit_value(s[3])) as u8,
                blue: (hex_digit_value(s[4]) * 16 + hex_digit_value(s[5])) as u8,
                alpha: 255u8,
            })
        }
    } else {
        Err(ColorParseError::InvalidLength)
    }
}

/// The lower-case hex digit for a value below sixteen.
pub open spec fn hex_char(n: int) -> char {
    if n == 0 {
        '0'
    } else if n == 1 {
        '1'
    } else if n == 2 {
        '2'
    } else if n == 3 {
        '3'
    } else if n == 4 {
        '4'
    } else if n == 5 {
        '5'
    } else if n == 6 {
        '6'
    } else if n == 7 {
        '7'
    } else if n == 8 {
        '8'
    } else if n == 9 {
        '9'
    } else if n == 10 {
        'a'
    } else if n == 11 {
        'b'
    } else if n == 12 {
        'c'
    } else if n == 13 {
        'd'
    } else if n == 14 {
        'e'
    } else {
        'f'
    }
}

/// The canonical hex form of a color: `#` and six lower-case digits, most
/// significant nibble of each channel first. Alpha is not recorded.
pub open spec fn spec_hex_format(c: Color) -> Seq<char> {
    seq![
        '#',
        hex_char(c.red as int / 16),
        hex_char(c.red as int % 16),
        hex_char(c.green as int / 16),
        hex_char(c.green as int % 16),
        hex_char(c.blue as int / 16),
        hex_char(c.blue as int % 16),
    ]
}

impl Color {
    /// Parse a hex color string such as `#1a2b3c`, `1a2b3c`, `#abc` or `abc`.
    pub fn hex_code(hex: &str) -> (r: Result<Color, ColorParseError>)
        ensures
            r == spec_parse_hex(hex@),
    {
        let n = hex.unicode_len();
        let start: usize = if n >= 1 && hex.get_char(0) == '#' {
            1
        } else {
            0
        };
        proof {
            assert(strip_hash(hex@) =~= hex@.subrange(start as int, n as int));
        }
        let rem = n - start;
        if rem == 3 {
            let v0 = match hex_digit(hex.get_char(start)) {
                Some(v) => v,
                None => {
                    return Err(ColorParseError::InvalidHexDigit(hex.get_char(start)));
                },
            };
            let v1 = match hex_digit(hex.get_char(start + 1)) {
                Some(v) => v,
                None => {
                    return Err(ColorParseError::InvalidHexDigit(hex.get_char(start + 1)));
                },
            };
            let v2 = match hex_digit(hex.get_char(start + 2)) {
                Some(v) => v,
                None => {
                    return Err(ColorParseError::InvalidHexDigit(hex.get_char(start + 2)));
                },
            };
            Ok(Color { red: v0 * 17, green: v1 * 17, blue: v2 * 17, alpha: 255 })
        } else if rem == 6 {
            let v0 = match hex_digit(hex.get_char(start)) {
                Some(v) => v,
                None => {
                    return Err(ColorParseError::InvalidHexDigit(hex.get_char(start)));
                },
            };
            let v1 = match hex_digit(hex.get_char(start + 1)) {
                Some(v) => v,
                None => {
                    return Err(ColorParseError::InvalidHexDigit(hex.get_char(start + 1)));
                },
            };
            let v2 = match hex_digit(hex.get_char(start + 2)) {
                Some(v) => v,
                None => {
                    return Err(ColorParseError::InvalidHexDigit(hex.get_char(start + 2)));
                },
            };
            let v3 = match hex_digit(hex.get_char(start + 3)) {
                Some(v) => v,
                None => {
                    return Err(ColorParseError::InvalidHexDigit(hex.get_char(start + 3)));
                },
            };
            let v4 = match hex_digit(hex.get_char(start + 4)) {
                Some(v) => v,
                None => {
                    return Err(ColorParseError::InvalidHexDigit(hex.get_char(start + 4)));
                },
            };
            let v5 = match hex_digit(hex.get_char(start + 5)) {
                Some(v) => v,
                None => {
                    return Err(ColorParseError::InvalidHexDigit(hex.get_char(start + 5)));
                },
            };
            Ok(Color {
                red: v0 * 16 + v1,
                green: v2 * 16 + v3,
                blue: v4 * 16 + v5,
                alpha: 255,
            })
        } else {
            Err(ColorParseError::InvalidLength)
        }
    }

    /// Format as `#` and six lower-case hex digits. Alpha is not recorded,
    /// so only opaque colors survive a parse of the result unchanged.
    pub fn hex_string(&self) -> (s: String)
        ensures
            s@ == spec_hex_format(*self),
    {
        let mut s = String::new();
        s.append("#");
        s.append(hex_char_str(self.red / 16));
        s.append(hex_char_str(self.red % 16));
        s.append(hex_char_str(self.green / 16));
        s.append(hex_char_str(self.green % 16));
        s.append(hex_char_str(self.blue / 16));
        s.append(hex_char_str(self.blue % 16));
        proof {
            reveal_strlit("#");
            assert(s@ =~= spec_hex_format(*self));
        }
        s
    }
}

/// Every digit the formatter emits parses back to the value it came from.
pub proof fn lemma_hex_char_value(n: int)
    requires
        0 <= n < 16,
    ensures
        is_hex_digit(hex_char(n)),
        hex_digit_value(hex_char(n)) == n,
{
}

/// Formatting an opaque color and parsing the result gives the color back.
pub proof fn lemma_hex_round_trip(c: Color)
    requires
        c.alpha == 255,
    ensures
        spec_parse_hex(spec_hex_format(c)) == Ok::<Color, ColorParseError>(c),
{
    let s = spec_hex_format(c);
    let t = strip_hash(s);
    assert(t =~= s.subrange(1, 7));
    lemma_hex_char_value(c.red as int / 16);
    lemma_hex_char_value(c.red as int % 16);
    lemma_hex_char_value(c.green as int / 16);
    lemma_hex_char_value(c.green as int % 16);
    lemma_hex_char_value(c.blue as int / 16);
    lemma_hex_char_value(c.blue as int % 16);
    assert(c.red as int == c.red as int / 16 * 16 + c.red as int % 16);
    assert(c.green as int == c.green as int / 16 * 16 + c.green as int % 16);
    assert(c.blue as int == c.blue as int / 16 * 16 + c.blue as int % 16);
}

fn hex_digit(c: char) -> (r: Option<u8>)
    ensures
        r is Some <==> is_hex_digit(c),
        r is Some ==> r->0 as int == hex_digit_value(c),
{
    let v = c as u32;
    if v >= '0' as u32 && v <= '9' as u32 {
        Some((v - '0' as u32) as u8)
    } else if v >= 'a' as u32 && v <= 'f' as u32 {
        Some((v - 'a' as u32 + 10) as u8)
    } else if v >= 'A' as u32 && v <= 'F' as u32 {
        Some((v - 'A' as u32 + 10) as u8)
    } else {
        None
    }
}

fn hex_char_str(n: u8) -> (r: &'static str)
    requires
        n < 16,
    ensures
        r@ =~= seq![hex_char(n as int)],
{
    match n {
        0 => {
            proof {
                reveal_strlit("0");
            }
            "0"
        },
        1 => {
            proof {
                reveal_strlit("1");
            }
            "1"
        },
        2 => {
            proof {
                reveal_strlit("2");
            }
            "2"
        },
        3 => {
            proof {
                reveal_strlit("3");
            }
            "3"
        },
        4 => {
            proof {
                reveal_strlit("4");
            }
            "4"
        },
        5 => {
            proof {
                reveal_strlit("5");
            }
            "5"
        },
        6 => {
            proof {
                reveal_strlit("6");
            }
            "6"
        },
        7 => {
            proof {
                reveal_strlit("7");
            }
            "7"
        },
        8 => {
            proof {
                reveal_strlit("8");
            }
            "8"
        },
        9 => {
            proof {
                reveal_strlit("9");
            }
            "9"
        },
        10 => {
            proof {
                reveal_strlit("a");
            }
            "a"
        },
        11 => {
            proof {
                reveal_strlit("b");
            }
            "b"
        },
        12 => {
            proof {
                reveal_strlit("c");
            }
            "c"
        },
        13 => {
            proof {
                reveal_strlit("d");
            }
            "d"
        },
        14 => {
            proof {
                reveal_strlit("e");
            }
            "e"
        },
        _ => {
            proof {
                reveal_strlit("f");
            }
            "f"
        },
    }
}

fn sat_add_u8(a: u8, b: u8) -> (r: u8)
    ensures
        r as int == sat_add(a as int, b as int),
{
    let s: u16 = a as u16 + b as u16;
    if s > 255 {
        255
    } else {
        s as u8
    }
}

fn sat_sub_u8(a: u8, b: u8) -> (r: u8)
    ensures
        r as int == sat_sub(a as int, b as int),
{
    if a < b {
        0
    } else {
        a - b
    }
}

} // verus!
