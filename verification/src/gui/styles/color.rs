//! Colors and their textual notation.

use vstd::prelude::*;

use crate::gui::styles::ascii::{
    DIGIT_0, DIGIT_9, LOWER_A, LOWER_F, NUMBER_SIGN, UPPER_A, UPPER_F,
};

verus! {

/// A color with one byte per channel. An alpha of 255 is fully opaque.
#[derive(Clone, Copy, Debug, PartialEq, Eq, Hash, Structural)]
pub struct Color {
    pub r: u8,
    pub g: u8,
    pub b: u8,
    pub a: u8,
}

/// The value of an ASCII hexadecimal digit, in either case.
pub open spec fn hex_digit(byte: u8) -> Option<u8> {
    if DIGIT_0 <= byte <= DIGIT_9 {
        Some((byte - DIGIT_0) as u8)
    } else if LOWER_A <= byte <= LOWER_F {
        Some((byte - LOWER_A + 10) as u8)
    } else if UPPER_A <= byte <= UPPER_F {
        Some((byte - UPPER_A + 10) as u8)
    } else {
        None
    }
}

/// The byte that two hexadecimal digits denote, most significant first.
pub open spec fn hex_pair(high: u8, low: u8) -> Option<u8> {
    match (hex_digit(high), hex_digit(low)) {
        (Some(h), Some(l)) => Some((h * 16 + l) as u8),
        _ => None,
    }
}

/// The color that `text` denotes.
///
/// The notation is `#RRGGBB` or `#RRGGBBAA`: a number sign followed by three
/// or four channels of two hexadecimal digits each. Without an alpha channel
/// the color is opaque. Any other text denotes no color.
pub open spec fn color_literal(text: Seq<u8>) -> Option<Color> {
    if (text.len() == 7 || text.len() == 9) && text[0] == NUMBER_SIGN {
        match (hex_pair(text[1], text[2]), hex_pair(text[3], text[4]), hex_pair(text[5], text[6])) {
            (Some(r), Some(g), Some(b)) => {
                if text.len() == 7 {
                    Some(Color { r, g, b, a: 255 })
                } else {
                    match hex_pair(text[7], text[8]) {
                        Some(a) => Some(Color { r, g, b, a }),
                        None => None,
                    }
                }
            },
            _ => None,
        }
    } else {
        None
    }
}

/// The opaque color whose channels are the three low bytes of `rgb`.
pub open spec fn opaque_rgb(rgb: u32) -> Color {
    Color {
        r: (rgb / 0x1_0000 % 0x100) as u8,
        g: (rgb / 0x100 % 0x100) as u8,
        b: (rgb % 0x100) as u8,
        a: 255,
    }
}

fn hex_digit_value(byte: u8) -> (digit: Option<u8>)
    ensures
        digit == hex_digit(byte),
{
    if DIGIT_0 <= byte && byte <= DIGIT_9 {
        Some(byte - DIGIT_0)
    } else if LOWER_A <= byte && byte <= LOWER_F {
        Some(byte - LOWER_A + 10)
    } else if UPPER_A <= byte && byte <= UPPER_F {
        Some(byte - UPPER_A + 10)
    } else {
        None
    }
}

fn hex_pair_value(high: u8, low: u8) -> (byte: Option<u8>)
    ensures
        byte == hex_pair(high, low),
{
    match (hex_digit_value(high), hex_digit_value(low)) {
        (Some(h), Some(l)) => Some(h * 16 + l),
        _ => None,
    }
}

impl Color {
    /// An opaque color from `0xRRGGBB`. Bits above the low three bytes are
    /// ignored.
    pub fn from_rgb(rgb: u32) -> (color: Color)
        ensures
            color == opaque_rgb(rgb),
    {
        Color {
            r: (rgb / 0x1_0000 % 0x100) as u8,
            g: (rgb / 0x100 % 0x100) as u8,
            b: (rgb % 0x100) as u8,
            a: 255,
        }
    }

    /// Reads a color from its notation, see [`color_literal`].
    pub fn from_hex(text: &[u8]) -> (color: Option<Color>)
        ensures
            color == color_literal(text@),
    {
        let len = text.len();
        if (len != 7 && len != 9) || text[0] != NUMBER_SIGN {
            return None;
        }
        let rgb = (
            hex_pair_value(text[1], text[2]),
            hex_pair_value(text[3], text[4]),
            hex_pair_value(text[5], text[6]),
        );
        match rgb {
            (Some(r), Some(g), Some(b)) => {
                if len == 7 {
                    Some(Color { r, g, b, a: 255 })
                } else {
                    match hex_pair_value(text[7], text[8]) {
                        Some(a) => Some(Color { r, g, b, a }),
                        None => None,
                    }
                }
            },
            _ => None,
        }
    }
}

} // verus!
