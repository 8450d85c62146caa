//! The ASCII bytes that the color notation and the palette file format name.

use vstd::prelude::*;

verus! {

pub const TAB: u8 = 0x09;

pub const LINE_FEED: u8 = 0x0a;

pub const CARRIAGE_RETURN: u8 = 0x0d;

pub const SPACE: u8 = 0x20;

pub const QUOTE: u8 = 0x22;

pub const NUMBER_SIGN: u8 = 0x23;

pub const HYPHEN: u8 = 0x2d;

pub const DIGIT_0: u8 = 0x30;

pub const DIGIT_9: u8 = 0x39;

pub const EQUALS_SIGN: u8 = 0x3d;

pub const UPPER_A: u8 = 0x41;

pub const UPPER_F: u8 = 0x46;

pub const UPPER_Z: u8 = 0x5a;

pub const UNDERSCORE: u8 = 0x5f;

pub const LOWER_A: u8 = 0x61;

pub const LOWER_F: u8 = 0x66;

pub const LOWER_Z: u8 = 0x7a;

} // verus!
