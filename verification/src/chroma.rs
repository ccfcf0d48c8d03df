//! Lighting: colours and the effects of the addressable LEDs.

use vstd::prelude::*;
use crate::error::{DriverError, ValidationFailure};

verus! {

/// An LED zone of the device.
#[derive(Clone, Copy, Debug, PartialEq, Eq, Structural)]
pub enum LedId {
    Logo,
}

impl LedId {
    /// The byte that names the zone on the wire.
    pub open spec fn code_spec(self) -> u8 {
        match self {
            LedId::Logo => 0x04,
        }
    }

    /// The byte that names the zone on the wire.
    pub fn code(self) -> (c: u8)
        ensures
            c == self.code_spec(),
    {
        match self {
            LedId::Logo => 0x04,
        }
    }
}

/// A colour as three bytes.
#[derive(Clone, Copy, Debug, PartialEq, Eq, Structural)]
pub struct Color {
    pub r: u8,
    pub g: u8,
    pub b: u8,
}

/// How the breathing effect picks its colours.
#[derive(Clone, Copy, Debug, PartialEq, Eq, Structural)]
pub enum BreathingEffect {
    Single(Color),
    Dual(Color, Color),
    Random,
}

/// An effect of the extended matrix command.
#[derive(Clone, Copy, Debug, PartialEq, Eq, Structural)]
pub enum ExtendedMatrixEffect {
    /// The LED is off.
    Off,
    /// One steady colour.
    Static(Color),
    /// Fading in and out.
    Breathing(BreathingEffect),
    /// Cycling through the spectrum.
    Spectrum,
    /// Lighting up on input: the colour, and a speed from 1 to 4.
    Reactive(Color, u8),
}

impl ExtendedMatrixEffect {
    /// The byte that names the effect on the wire.
    pub open spec fn code_spec(self) -> u8 {
        match self {
            ExtendedMatrixEffect::Off => 0x00,
            ExtendedMatrixEffect::Static(_) => 0x01,
            ExtendedMatrixEffect::Breathing(_) => 0x02,
            ExtendedMatrixEffect::Spectrum => 0x03,
            ExtendedMatrixEffect::Reactive(_, _) => 0x05,
        }
    }
}

impl From<ExtendedMatrixEffect> for u8 {
    fn from(value: ExtendedMatrixEffect) -> (r: u8) {
        match value {
            ExtendedMatrixEffect::Off => 0x00,
            ExtendedMatrixEffect::Static(_) => 0x01,
            ExtendedMatrixEffect::Breathing(_) => 0x02,
            ExtendedMatrixEffect::Spectrum => 0x03,
            ExtendedMatrixEffect::Reactive(_, _) => 0x05,
        }
    }
}

impl vstd::std_specs::convert::FromSpecImpl<ExtendedMatrixEffect> for u8 {
    open spec fn obeys_from_spec() -> bool {
        true
    }

    open spec fn from_spec(value: ExtendedMatrixEffect) -> u8 {
        value.code_spec()
    }
}

impl From<(u8, u8, u8)> for Color {
    fn from(value: (u8, u8, u8)) -> (r: Color) {
        Color { r: value.0, g: value.1, b: value.2 }
    }
}

impl vstd::std_specs::convert::FromSpecImpl<(u8, u8, u8)> for Color {
    open spec fn obeys_from_spec() -> bool {
        true
    }

    open spec fn from_spec(value: (u8, u8, u8)) -> Color {
        Color { r: value.0, g: value.1, b: value.2 }
    }
}

/// The value of a hexadecimal digit, in either case; `None` for any other
/// character.
pub open spec fn hex_digit(c: char) -> Option<u8> {
    let n = c as u32;
    if 0x30 <= n <= 0x39 {
        Some((n - 0x30) as u8)
    } else if 0x41 <= n <= 0x46 {
        Some((n - 0x41 + 10) as u8)
    } else if 0x61 <= n <= 0x66 {
        Some((n - 0x61 + 10) as u8)
    } else {
        None
    }
}

/// The byte written as two hexadecimal digits, if both are digits.
pub open spec fn hex_byte(hi: char, lo: char) -> Option<u8> {
    match (hex_digit(hi), hex_digit(lo)) {
        (Some(h), Some(l)) => Some((16 * h + l) as u8),
        _ => None,
    }
}

/// The colour that `#RRGGBB` names. Text of any other form names none:
/// exactly seven characters, a `#` and six hexadecimal digits.
pub open spec fn parse_color(text: Seq<char>) -> Option<Color> {
    if text.len() == 7 && text[0] == '#' {
        match (hex_byte(text[1], text[2]), hex_byte(text[3], text[4]), hex_byte(text[5], text[6])) {
            (Some(r), Some(g), Some(b)) => Some(Color { r, g, b }),
            _ => None,
        }
    } else {
        None
    }
}

fn hex_digit_value(c: char) -> (r: Option<u8>)
    ensures
        r == hex_digit(c),
{
    let n: u32 = c as u32;
    if 0x30 <= n && n <= 0x39 {
        Some((n - 0x30) as u8)
    } else if 0x41 <= n && n <= 0x46 {
        Some((n - 0x41 + 10) as u8)
    } else if 0x61 <= n && n <= 0x66 {
        Some((n - 0x61 + 10) as u8)
    } else {
        None
    }
}

fn hex_byte_value(hi: char, lo: char) -> (r: Option<u8>)
    ensures
        r == hex_byte(hi, lo),
{
    match (hex_digit_value(hi), hex_digit_value(lo)) {
        (Some(h), Some(l)) => Some(16 * h + l),
        _ => None,
    }
}

impl Color {
    /// Reads a colour from text of the form `#RRGGBB`.
    pub fn from_hex(hex_code: &str) -> (r: Result<Color, DriverError>)
        ensures
            r is Ok <==> parse_color(hex_code@) is Some,
            r matches Ok(color) ==> parse_color(hex_code@) == Some(color),
            r matches Err(e) ==> e == DriverError::Validation(ValidationFailure::ColorText),
    {
        let malformed = DriverError::Validation(ValidationFailure::ColorText);
        if hex_code.unicode_len() != 7 {
            return Err(malformed);
        }
        if hex_code.get_char(0) != '#' {
            return Err(malformed);
        }
        let r = hex_byte_value(hex_code.get_char(1), hex_code.get_char(2));
        let g = hex_byte_value(hex_code.get_char(3), hex_code.get_char(4));
        let b = hex_byte_value(hex_code.get_char(5), hex_code.get_char(6));
        match (r, g, b) {
            (Some(r), Some(g), Some(b)) => Ok(Color { r, g, b }),
            _ => Err(malformed),
        }
    }
}

impl core::str::FromStr for Color {
    type Err = ();

    /// Reads a colour from text of the form `#RRGGBB`, as `from_hex` does.
    fn from_str(hex_code: &str) -> (r: Result<Color, ()>)
        ensures
            r == match parse_color(hex_code@) {
                Some(color) => Ok::<Color, ()>(color),
                None => Err(()),
            },
    {
        match Color::from_hex(hex_code) {
            Ok(color) => Ok(color),
            Err(_) => Err(()),
        }
    }
}

/// What to tell a user whose colour text was rejected.
pub fn color_err_msg() -> (text: &'static str)
    ensures
        text@ == "Please specify a color in hex (ex: #0cff1d)"@,
{
    "Please specify a color in hex (ex: #0cff1d)"
}

} // verus!
