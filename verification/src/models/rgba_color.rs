//! Colours in channel-tuple notation, `rgba(r, g, b, a)`.

use crate::error::{ThemeError, ThemeErrorView};
use crate::text::{
    remove_all, remove_all_in, split, split_on, to_chars, trim, trim_bounds, views,
};
use vstd::prelude::*;

verus! {

/// An opaque colour: the red, green and blue channels of a channel tuple.
/// The alpha channel of the notation is read and dropped.
#[derive(Debug, Clone, Copy, PartialEq, Eq, Structural)]
pub struct RGBAColor {
    pub r: u8,
    pub g: u8,
    pub b: u8,
}

/// `rgba(`, the literal that opens the notation.
pub open spec fn opening() -> Seq<char> {
    seq!['r', 'g', 'b', 'a', '(']
}

/// `)`, which closes it.
pub open spec fn closing() -> Seq<char> {
    seq![')']
}

/// Whether `c` is one of the decimal digits `0` to `9`.
pub open spec fn is_digit(c: char) -> bool {
    0x30 <= c as u32 <= 0x39
}

/// Whether `s` holds decimal digits only.
pub open spec fn all_digits(s: Seq<char>) -> bool {
    forall|i: int| 0 <= i < s.len() ==> is_digit(#[trigger] s[i])
}

/// The number that the decimal digits `s` write.
pub open spec fn decimal_value(s: Seq<char>) -> nat
    decreases s.len(),
{
    if s.len() == 0 {
        0
    } else {
        decimal_value(s.drop_last()) * 10 + (s.last() as u32 - 0x30) as nat
    }
}

/// The channel that a token writes: an optional `+`, then one or more decimal
/// digits whose value is at most 255. Any other token writes none.
pub open spec fn parse_channel(token: Seq<char>) -> Option<u8> {
    let digits = if token.len() > 0 && token[0] == '+' {
        token.skip(1)
    } else {
        token
    };
    if digits.len() > 0 && all_digits(digits) && decimal_value(digits) <= 255 {
        Some(decimal_value(digits) as u8)
    } else {
        None
    }
}

/// The channels that the tokens write, in order; a token that writes none
/// is passed over.
pub open spec fn channels(tokens: Seq<Seq<char>>) -> Seq<u8>
    decreases tokens.len(),
{
    if tokens.len() == 0 {
        seq![]
    } else {
        let rest = channels(tokens.drop_last());
        match parse_channel(trim(tokens.last())) {
            Some(v) => rest.push(v),
            None => rest,
        }
    }
}

/// The comma-separated tokens of `text` once every `rgba(` and every `)` is
/// taken out.
pub open spec fn tokens(text: Seq<char>) -> Seq<Seq<char>> {
    split(remove_all(remove_all(text, opening()), closing()), ',')
}

/// The colour that `text` writes: the first three channels among its
/// tokens. A text with fewer than three channels writes none.
pub open spec fn parse_rgba(text: Seq<char>) -> Option<RGBAColor> {
    let c = channels(tokens(text));
    if c.len() >= 3 {
        Some(RGBAColor { r: c[0], g: c[1], b: c[2] })
    } else {
        None
    }
}

proof fn lemma_decimal_value_prefix(s: Seq<char>, k: int)
    requires
        0 <= k <= s.len(),
        all_digits(s),
    ensures
        decimal_value(s.take(k)) <= decimal_value(s),
    decreases s.len() - k,
{
    if k < s.len() {
        lemma_decimal_value_prefix(s, k + 1);
        assert(s.take(k + 1).drop_last() =~= s.take(k));
    } else {
        assert(s.take(k) =~= s);
    }
}

/// The channel written by `v[lo..hi]`.
fn channel_of(v: &Vec<char>, lo: usize, hi: usize) -> (r: Option<u8>)
    requires
        lo <= hi <= v.len(),
    ensures
        r == parse_channel(v@.subrange(lo as int, hi as int)),
{
    let ghost token = v@.subrange(lo as int, hi as int);
    let start: usize = if lo < hi && v[lo] == '+' {
        lo + 1
    } else {
        lo
    };
    let ghost digits = v@.subrange(start as int, hi as int);
    assert(digits =~= if token.len() > 0 && token[0] == '+' {
        token.skip(1)
    } else {
        token
    });
    if start == hi {
        return None;
    }
    let mut acc: u32 = 0;
    let mut i: usize = start;
    while i < hi
        invariant
            start <= i <= hi <= v.len(),
            digits == v@.subrange(start as int, hi as int),
            digits.len() > 0,
            parse_channel(v@.subrange(lo as int, hi as int)) == (if all_digits(digits)
                && decimal_value(digits) <= 255 {
                Some(decimal_value(digits) as u8)
            } else {
                None
            }),
            all_digits(digits.take(i - start)),
            acc == decimal_value(digits.take(i - start)),
            acc <= 255,
        decreases hi - i,
    {
        let c = v[i];
        let u: u32 = c as u32;
        if u < 0x30 || u > 0x39 {
            assert(!is_digit(digits[i - start]));
            return None;
        }
        assert(digits.take(i - start + 1).drop_last() =~= digits.take(i - start));
        assert(all_digits(digits.take(i - start + 1))) by {
            assert forall|j: int| 0 <= j < i - start + 1 implies is_digit(
                #[trigger] digits.take(i - start + 1)[j],
            ) by {}
        }
        acc = acc * 10 + (u - 0x30);
        if acc > 255 {
            proof {
                if all_digits(digits) {
                    lemma_decimal_value_prefix(digits, i - start + 1);
                }
            }
            return None;
        }
        i = i + 1;
    }
    assert(digits.take(hi - start) =~= digits);
    Some(acc as u8)
}

impl RGBAColor {
    /// Reads a colour in channel-tuple notation.
    ///
    /// Every `rgba(` and every `)` is taken out of `value`, the rest is cut
    /// at commas, and the tokens that write a channel are kept. The first
    /// three are red, green and blue; with fewer than three the text is
    /// refused.
    pub fn try_from(value: &String) -> (r: Result<RGBAColor, ThemeError>)
        ensures
            match parse_rgba(value@) {
                Some(c) => r == Ok::<RGBAColor, ThemeError>(c),
                None => r is Err && r->Err_0@ == (ThemeErrorView::InvalidColorFormat {
                    text: value@,
                }),
            },
    {
        let text = to_chars(value.as_str());
        let open: Vec<char> = vec!['r', 'g', 'b', 'a', '('];
        let close: Vec<char> = vec![')'];
        assert(close@ =~= closing());
        let inner = remove_all_in(&remove_all_in(&text, &open), &close);
        let parts = split_on(&inner, ',');
        let ghost toks = tokens(value@);
        let mut found: Vec<u8> = Vec::new();
        let mut i: usize = 0;
        while i < parts.len()
            invariant
                i <= parts.len(),
                views(parts@) == toks,
                found@ == channels(toks.take(i as int)),
            decreases parts.len() - i,
        {
            let part = &parts[i];
            let (a, b) = trim_bounds(part, 0, part.len());
            assert(part@.subrange(0, part.len() as int) =~= part@);
            let channel = channel_of(part, a, b);
            assert(toks.take(i + 1).drop_last() =~= toks.take(i as int));
            if let Some(v) = channel {
                found.push(v);
            }
            i = i + 1;
        }
        assert(toks.take(parts.len() as int) =~= toks);
        if found.len() < 3 {
            return Err(ThemeError::InvalidColorFormat { text: value.clone() });
        }
        Ok(RGBAColor { r: found[0], g: found[1], b: found[2] })
    }
}

} // verus!
