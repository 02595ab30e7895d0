//! Colours in hexadecimal notation.

use crate::bindings::{format_hex, hex_digit, hex_notation, hex_pair};
use crate::error::{ThemeError, ThemeErrorView};
use crate::models::rgba_color::{parse_rgba, RGBAColor};
use crate::text::{to_chars, to_string};
use vstd::prelude::*;
use vstd::std_specs::convert::FromSpecImpl;
use vstd::string::StringExecFns;

verus! {

/// A colour that is written as six hexadecimal digits: two each for red,
/// green and blue, in uppercase, with no alpha and no leading `#`.
#[derive(Debug, Clone, Copy, PartialEq, Eq, Structural)]
pub struct HexColor {
    pub r: u8,
    pub g: u8,
    pub b: u8,
}

/// The six digits of the colour with the given channels.
pub open spec fn hex_digits(r: u8, g: u8, b: u8) -> Seq<char> {
    hex_pair(r) + hex_pair(g) + hex_pair(b)
}

/// The hexadecimal notation of the colour that `text` writes in
/// channel-tuple notation, if it writes one.
pub open spec fn hex_of(text: Seq<char>) -> Option<Seq<char>> {
    match parse_rgba(text) {
        Some(c) => Some(hex_digits(c.r, c.g, c.b)),
        None => None,
    }
}

/// An opaque colour is written in hexadecimal channel by channel.
impl From<RGBAColor> for HexColor {
    fn from(color: RGBAColor) -> (hex: HexColor) {
        HexColor { r: color.r, g: color.g, b: color.b }
    }
}

impl FromSpecImpl<RGBAColor> for HexColor {
    open spec fn obeys_from_spec() -> bool {
        true
    }

    open spec fn from_spec(color: RGBAColor) -> HexColor {
        HexColor { r: color.r, g: color.g, b: color.b }
    }
}

impl HexColor {
    /// The six digits of this colour.
    pub open spec fn digits(self) -> Seq<char> {
        hex_digits(self.r, self.g, self.b)
    }

    /// Reads a colour in channel-tuple notation; see `RGBAColor::try_from`.
    pub fn try_from(value: &String) -> (r: Result<HexColor, ThemeError>)
        ensures
            match parse_rgba(value@) {
                Some(c) => r == Ok::<HexColor, ThemeError>(HexColor { r: c.r, g: c.g, b: c.b }),
                None => r is Err && r->Err_0@ == (ThemeErrorView::InvalidColorFormat {
                    text: value@,
                }),
            },
    {
        match RGBAColor::try_from(value) {
            Ok(color) => Ok(HexColor::from(color)),
            Err(e) => Err(e),
        }
    }

    /// Writes this colour as six uppercase hexadecimal digits.
    pub fn into_string(self) -> (s: String)
        ensures
            s@ == self.digits(),
    {
        let marked = to_chars(format_hex(self.r, self.g, self.b).as_str());
        let s = to_string(&marked, 1, marked.len());
        s
    }
}

/// Converts a colour from channel-tuple notation, `rgba(r, g, b, a)`, to six
/// uppercase hexadecimal digits. Alpha is read and dropped. A text with fewer
/// than three channel tokens is refused as `InvalidColorFormat`.
pub fn to_hex(text: &str) -> (r: Result<String, ThemeError>)
    ensures
        match hex_of(text@) {
            Some(digits) => r is Ok && r->Ok_0@ == digits,
            None => r is Err && r->Err_0@ == (ThemeErrorView::InvalidColorFormat { text: text@ }),
        },
{
    let owned = String::from_str(text);
    match HexColor::try_from(&owned) {
        Ok(hex) => Ok(hex.into_string()),
        Err(e) => Err(e),
    }
}

/// Whether `c` is a decimal digit or one of `A` to `F`.
pub open spec fn is_hex_digit(c: char) -> bool {
    0x30 <= c as u32 <= 0x39 || 0x41 <= c as u32 <= 0x46
}

/// The hexadecimal notation of a colour is six hexadecimal digits, whatever
/// its channels.
pub proof fn law_six_hex_digits(r: u8, g: u8, b: u8)
    ensures
        hex_digits(r, g, b).len() == 6,
        forall|i: int| 0 <= i < 6 ==> is_hex_digit(#[trigger] hex_digits(r, g, b)[i]),
{
    assert forall|x: int| 0 <= x < 16 implies is_hex_digit(#[trigger] hex_digit(x)) by {}
}

} // verus!
