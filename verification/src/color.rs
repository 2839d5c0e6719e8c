//! Display colors: `#RRGGBB` strings parsed into channel values, and the
//! configuration record of the four colors the timeline is drawn with.

use vstd::prelude::*;
use vstd::string::*;

verus! {

/// An opaque color, one byte per channel.
#[derive(PartialEq, Eq, Structural, Clone, Copy, Debug)]
pub struct Rgb {
    pub r: u8,
    pub g: u8,
    pub b: u8,
}

/// A color with an alpha channel, held in thousandths (1000 is opaque).
#[derive(PartialEq, Eq, Structural, Clone, Copy, Debug)]
pub struct Rgba {
    pub r: u8,
    pub g: u8,
    pub b: u8,
    pub alpha_milli: u16,
}

/// A malformed color string: anything but `#` followed by six hex digits.
#[derive(PartialEq, Eq, Structural, Clone, Copy, Debug)]
pub enum ColorError {
    Malformed,
}

/// Whether `c` is a hexadecimal digit, in either case.
pub open spec fn is_hex_digit(c: char) -> bool {
    ('0' <= c && c <= '9') || ('a' <= c && c <= 'f') || ('A' <= c && c <= 'F')
}

/// The value of the hexadecimal digit `c` (meaningful when `is_hex_digit(c)`).
pub open spec fn hex_val(c: char) -> int {
    if '0' <= c && c <= '9' {
        c as int - '0' as int
    } else if 'a' <= c && c <= 'f' {
        10 + c as int - 'a' as int
    } else {
        10 + c as int - 'A' as int
    }
}

/// The byte written as the two hexadecimal digits `hi`, `lo`.
pub open spec fn spec_hex_byte(hi: char, lo: char) -> int {
    16 * hex_val(hi) + hex_val(lo)
}

/// A well-formed color string: `#` followed by exactly six hex digits.
pub open spec fn valid_hex_color(s: Seq<char>) -> bool {
    &&& s.len() == 7
    &&& s[0] == '#'
    &&& forall|i: int| 1 <= i < 7 ==> is_hex_digit(#[trigger] s[i])
}

/// The color that the well-formed color string `s` names.
pub open spec fn spec_rgb_of(s: Seq<char>) -> Rgb {
    Rgb {
        r: spec_hex_byte(s[1], s[2]) as u8,
        g: spec_hex_byte(s[3], s[4]) as u8,
        b: spec_hex_byte(s[5], s[6]) as u8,
    }
}

/// The value of one hexadecimal digit, or `None` where `c` is no such digit.
pub fn hex_digit(c: char) -> (r: Option<u8>)
    ensures
        r is Some <==> is_hex_digit(c),
        r is Some ==> r->0 == hex_val(c),
{
    match c {
        '0' => Some(0),
        '1' => Some(1),
        '2' => Some(2),
        '3' => Some(3),
        '4' => Some(4),
        '5' => Some(5),
        '6' => Some(6),
        '7' => Some(7),
        '8' => Some(8),
        '9' => Some(9),
        'a' => Some(10),
        'b' => Some(11),
        'c' => Some(12),
        'd' => Some(13),
        'e' => Some(14),
        'f' => Some(15),
        'A' => Some(10),
        'B' => Some(11),
        'C' => Some(12),
        'D' => Some(13),
        'E' => Some(14),
        'F' => Some(15),
        _ => None,
    }
}

/// The byte written as the two hexadecimal digits `hi`, `lo`, or `None`
/// where either is no hex digit.
pub fn hex_byte(hi: char, lo: char) -> (r: Option<u8>)
    ensures
        r is Some <==> is_hex_digit(hi) && is_hex_digit(lo),
        r is Some ==> r->0 == spec_hex_byte(hi, lo),
{
    match (hex_digit(hi), hex_digit(lo)) {
        (Some(h), Some(l)) => Some(16 * h + l),
        _ => None,
    }
}

/// Parses a `#RRGGBB` color string; errs on any malformed string.
pub fn hex_to_rgb(hex: &str) -> (r: Result<Rgb, ColorError>)
    ensures
        r is Ok <==> valid_hex_color(hex@),
        r is Ok ==> r->Ok_0 == spec_rgb_of(hex@),
{
    if hex.unicode_len() != 7 {
        return Err(ColorError::Malformed);
    }
    if hex.get_char(0) != '#' {
        return Err(ColorError::Malformed);
    }
    let red: Option<u8> = hex_byte(hex.get_char(1), hex.get_char(2));
    let green: Option<u8> = hex_byte(hex.get_char(3), hex.get_char(4));
    let blue: Option<u8> = hex_byte(hex.get_char(5), hex.get_char(6));
    match (red, green, blue) {
        (Some(r), Some(g), Some(b)) => {
            proof {
                assert forall|i: int| 1 <= i < 7 implies is_hex_digit(#[trigger] hex@[i]) by {
                    assert(is_hex_digit(hex@[1]) && is_hex_digit(hex@[2]));
                    assert(is_hex_digit(hex@[3]) && is_hex_digit(hex@[4]));
                    assert(is_hex_digit(hex@[5]) && is_hex_digit(hex@[6]));
                }
            }
            Ok(Rgb { r, g, b })
        },
        _ => Err(ColorError::Malformed),
    }
}

/// Parses a `#RRGGBB` color string and attaches the given alpha, in
/// thousandths; errs on any malformed string.
pub fn hex_to_rgba(hex: &str, alpha_milli: u16) -> (r: Result<Rgba, ColorError>)
    requires
        alpha_milli <= 1000,
    ensures
        r is Ok <==> valid_hex_color(hex@),
        r is Ok ==> ({
            let c = spec_rgb_of(hex@);
            r->Ok_0 == Rgba { r: c.r, g: c.g, b: c.b, alpha_milli }
        }),
{
    match hex_to_rgb(hex) {
        Ok(c) => Ok(Rgba { r: c.r, g: c.g, b: c.b, alpha_milli }),
        Err(e) => Err(e),
    }
}

/// The display colors the application is drawn with, each a `#RRGGBB` string.
pub struct Config {
    pub main_color: String,
    pub background_color: String,
    pub timeline_color: String,
    pub hover_background: String,
}

impl Config {
    /// Whether every color of the configuration is a well-formed color string.
    pub open spec fn wf(&self) -> bool {
        &&& valid_hex_color(self.main_color@)
        &&& valid_hex_color(self.background_color@)
        &&& valid_hex_color(self.timeline_color@)
        &&& valid_hex_color(self.hover_background@)
    }
}

impl Clone for Config {
    fn clone(&self) -> (c: Config)
        ensures
            c.main_color@ == self.main_color@,
            c.background_color@ == self.background_color@,
            c.timeline_color@ == self.timeline_color@,
            c.hover_background@ == self.hover_background@,
    {
        Config {
            main_color: self.main_color.clone(),
            background_color: self.background_color.clone(),
            timeline_color: self.timeline_color.clone(),
            hover_background: self.hover_background.clone(),
        }
    }
}

impl Default for Config {
    /// The colors used when the configuration file provides none.
    fn default() -> (c: Config)
        ensures
            c.main_color@ == "#B287A1"@,
            c.background_color@ == "#111111"@,
            c.timeline_color@ == "#829f62"@,
            c.hover_background@ == "#0E0E0E"@,
    {
        Config {
            main_color: String::from_str("#B287A1"),
            background_color: String::from_str("#111111"),
            timeline_color: String::from_str("#829f62"),
            hover_background: String::from_str("#0E0E0E"),
        }
    }
}

} // verus!
