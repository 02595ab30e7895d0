//! The calls this library makes into the `regex`, `easy_color` and `rand`
//! crates. Their contracts are assumed, not proved.

use easy_color::{Hex, RGB, RGBA};
use rand::seq::IndexedRandom;
use regex::Regex;
use vstd::prelude::*;

verus! {

/// What `Regex::captures` finds when the expression `pattern` is searched in
/// `haystack`: `None` where there is no match (or `pattern` is no valid
/// expression), else the text of every capture group of the leftmost match,
/// group 0 being the whole match and a group that took no part being `None`.
pub uninterp spec fn regex_captures(pattern: Seq<char>, haystack: Seq<char>) -> Option<
    Seq<Option<Seq<char>>>,
>;

/// One uppercase hexadecimal digit.
pub open spec fn hex_digit(d: int) -> char {
    if d < 10 {
        ('0' as int + d) as char
    } else {
        ('A' as int + d - 10) as char
    }
}

/// A byte as two uppercase hexadecimal digits.
pub open spec fn hex_pair(x: u8) -> Seq<char> {
    seq![hex_digit(x as int / 16), hex_digit(x as int % 16)]
}

/// `#RRGGBB`.
pub open spec fn hex_notation(r: u8, g: u8, b: u8) -> Seq<char> {
    seq!['#'] + hex_pair(r) + hex_pair(g) + hex_pair(b)
}

/// Compiles `pattern` with `Regex::new` and searches `haystack` with
/// `Regex::captures`. Assumed: the outcome is a function of the two texts
/// alone, which `regex_captures` names.
#[verifier::external_body]
pub(crate) fn captures(pattern: &str, haystack: &str) -> (r: Option<Vec<Option<String>>>)
    ensures
        r.deep_view() == regex_captures(pattern@, haystack@),
{
    let re = Regex::new(pattern).ok()?;
    let caps = re.captures(haystack)?;
    Some(caps.iter().map(|m| m.map(|m| m.as_str().to_string())).collect())
}

/// Formats an opaque colour with `easy_color`: an `RGB` from the three
/// channels, widened to `RGBA` and `Hex`, then printed. Assumed: for an
/// opaque colour `Hex` prints `#` and two uppercase hexadecimal digits for
/// each of red, green and blue.
#[verifier::external_body]
pub(crate) fn format_hex(r: u8, g: u8, b: u8) -> (s: String)
    ensures
        s@ == hex_notation(r, g, b),
{
    let rgb = RGB::try_from((r, g, b)).unwrap();
    Hex::from(RGBA::from(rgb)).to_string()
}

/// Picks one of `items` with `IndexedRandom::choose` and the thread's random
/// generator. Assumed: nothing is picked from an empty list, and what is
/// picked from another is one of its elements.
#[verifier::external_body]
pub(crate) fn pick_one(items: &Vec<String>) -> (r: Option<&String>)
    ensures
        items@.len() == 0 ==> r is None,
        items@.len() > 0 ==> r is Some && items@.contains(*r.unwrap()),
{
    items.choose(&mut rand::rng())
}

} // verus!
