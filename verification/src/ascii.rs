//! The ASCII characters that the message layouts are made of.

use vstd::prelude::*;

verus! {

/// The space, ` `.
pub const SPACE: u8 = 0x20;

/// The double quote, `"`.
pub const QUOTE: u8 = 0x22;

/// The plus sign, `+`.
pub const PLUS: u8 = 0x2b;

/// The minus sign, `-`; it also stands for a field that has no value.
pub const DASH: u8 = 0x2d;

/// The digit `0`.
pub const ZERO: u8 = 0x30;

/// The digit `1`.
pub const ONE: u8 = 0x31;

/// The colon, `:`.
pub const COLON: u8 = 0x3a;

/// The opening angle bracket, `<`.
pub const LESS: u8 = 0x3c;

/// The equals sign, `=`.
pub const EQUALS: u8 = 0x3d;

/// The closing angle bracket, `>`.
pub const GREATER: u8 = 0x3e;

/// The letter `T`, which parts a date from a time of day.
pub const LETTER_T: u8 = 0x54;

/// The letter `Z`, which stands for an offset of zero from UTC.
pub const LETTER_Z: u8 = 0x5a;

/// The opening square bracket, `[`.
pub const OPEN: u8 = 0x5b;

/// The backslash, `\`.
pub const BACKSLASH: u8 = 0x5c;

/// The closing square bracket, `]`.
pub const CLOSE: u8 = 0x5d;

/// The bytes of a text made of ASCII characters.
pub open spec fn ascii_bytes(text: Seq<char>) -> Seq<u8> {
    text.map_values(|c: char| c as u8)
}

} // verus!
