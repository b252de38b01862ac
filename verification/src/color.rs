//! Colors as plain channels, read from their textual form.

use crate::error::Error;
use std::str::FromStr;
use vstd::prelude::*;

verus! {

/// A color as its red, green and blue channels.
#[derive(Clone, Copy, Debug, PartialEq, Eq, Structural)]
pub struct Rgb {
    pub red: u8,
    pub green: u8,
    pub blue: u8,
}

/// The channels that `color_art` reads from a color text, or `None` where it
/// rejects the text.
pub uninterp spec fn parsed_channels(text: Seq<char>) -> Option<(u8, u8, u8)>;

/// An ASCII hexadecimal digit, in either case.
pub open spec fn is_hex_digit(c: char) -> bool {
    ('0' <= c && c <= '9') || ('a' <= c && c <= 'f') || ('A' <= c && c <= 'F')
}

/// How many characters of `text` are hexadecimal digits.
pub open spec fn hex_digit_count(text: Seq<char>) -> nat
    decreases text.len(),
{
    if text.len() == 0 {
        0
    } else {
        hex_digit_count(text.drop_last()) + if is_hex_digit(text.last()) {
            1nat
        } else {
            0nat
        }
    }
}

/// Texts that hold a `#` and exactly four hexadecimal digits. Every spelling
/// of the four-digit form `#rgba` is among them, whatever white space
/// surrounds it.
pub open spec fn is_short_alpha_form(text: Seq<char>) -> bool {
    text.contains('#') && hex_digit_count(text) == 4
}

/// Whether the three characters spell `hsl`, `hsv` or `hwb`, in any case.
pub open spec fn spells_hue_space(a: char, b: char, c: char) -> bool {
    (a == 'h' || a == 'H') && (((b == 's' || b == 'S') && (c == 'l' || c == 'L' || c == 'v' || c
        == 'V')) || ((b == 'w' || b == 'W') && (c == 'b' || c == 'B')))
}

/// Whether the three characters are `360` or `359`.
pub open spec fn spells_full_turn(a: char, b: char, c: char) -> bool {
    a == '3' && ((b == '6' && c == '0') || (b == '5' && c == '9'))
}

/// Whether a hue-based notation is named somewhere in the text.
pub open spec fn names_hue_space(text: Seq<char>) -> bool {
    exists|i: int|
        0 <= i && i + 2 < text.len() && spells_hue_space(
            #[trigger] text[i],
            text[i + 1],
            text[i + 2],
        )
}

/// Whether the digits `360` or `359` stand somewhere in the text.
pub open spec fn has_full_turn(text: Seq<char>) -> bool {
    exists|i: int|
        0 <= i && i + 2 < text.len() && spells_full_turn(
            #[trigger] text[i],
            text[i + 1],
            text[i + 2],
        )
}

/// Texts that name a hue-based notation and hold the digits of a full
/// turn. Every `hsl`, `hsla`, `hsv` or `hwb` notation whose hue is read as
/// 360 degrees is among them.
pub open spec fn is_full_turn_hue(text: Seq<char>) -> bool {
    names_hue_space(text) && has_full_turn(text)
}

/// The texts that the grammar leaves out although they look like colors:
/// the four-digit form, and a hue of a full turn (write 0 for it).
pub open spec fn is_left_out(text: Seq<char>) -> bool {
    is_short_alpha_form(text) || is_full_turn_hue(text)
}

/// The color that a text stands for.
pub open spec fn color_of(text: Seq<char>) -> Result<Rgb, Error> {
    if is_left_out(text) {
        Err(Error::InvalidColorSpec)
    } else {
        channels_to_color(parsed_channels(text))
    }
}

/// The color made of parsed channels; a rejected text is an invalid color.
pub open spec fn channels_to_color(parsed: Option<(u8, u8, u8)>) -> Result<Rgb, Error> {
    match parsed {
        Some(c) => Ok(Rgb { red: c.0, green: c.1, blue: c.2 }),
        None => Err(Error::InvalidColorSpec),
    }
}

/// Calls `color_art::Color::from_str` and reads the three channels of the
/// color with `red`, `green` and `blue`. The result is a function of the
/// text alone. Not proved: that it equals `parsed_channels`, which is its
/// name. Two kinds of text are kept out because `from_str` does not return
/// on them: on the four-digit form it slices past the end of the text, and
/// on a hue of 360 in the `hsl`, `hsla`, `hsv` and `hwb` notations its
/// conversion to channels gives up.
#[verifier::external_body]
fn read_channels(text: &str) -> (parsed: Option<(u8, u8, u8)>)
    requires
        !is_left_out(text@),
    ensures
        parsed == parsed_channels(text@),
{
    match color_art::Color::from_str(text) {
        Ok(color) => Some((color.red(), color.green(), color.blue())),
        Err(_) => None,
    }
}

fn hex_digit(c: char) -> (b: bool)
    ensures
        b == is_hex_digit(c),
{
    ('0' <= c && c <= '9') || ('a' <= c && c <= 'f') || ('A' <= c && c <= 'F')
}

fn hue_space(a: char, b: char, c: char) -> (r: bool)
    ensures
        r == spells_hue_space(a, b, c),
{
    (a == 'h' || a == 'H') && (((b == 's' || b == 'S') && (c == 'l' || c == 'L' || c == 'v' || c
        == 'V')) || ((b == 'w' || b == 'W') && (c == 'b' || c == 'B')))
}

fn full_turn(a: char, b: char, c: char) -> (r: bool)
    ensures
        r == spells_full_turn(a, b, c),
{
    a == '3' && ((b == '6' && c == '0') || (b == '5' && c == '9'))
}

/// Whether the text is one that the grammar leaves out.
pub fn left_out(text: &str) -> (b: bool)
    ensures
        b == is_left_out(text@),
{
    let mut digits: u8 = 0;
    let mut hash = false;
    let mut space = false;
    let mut turn = false;
    let mut before: char = ' ';
    let mut last: char = ' ';
    for c in iter: text.chars()
        invariant
            iter.seq() == text@,
            digits <= 5,
            digits < 5 ==> digits == hex_digit_count(text@.take(iter.index() as int)),
            digits == 5 ==> hex_digit_count(text@.take(iter.index() as int)) >= 5,
            hash == text@.take(iter.index() as int).contains('#'),
            space == names_hue_space(text@.take(iter.index() as int)),
            turn == has_full_turn(text@.take(iter.index() as int)),
            last == if iter.index() >= 1 {
                text@[iter.index() - 1]
            } else {
                ' '
            },
            before == if iter.index() >= 2 {
                text@[iter.index() - 2]
            } else {
                ' '
            },
    {
        proof {
            let k = iter.index() as int;
            let seen = text@.take(k);
            let next = text@.take(k + 1);
            assert(next.drop_last() =~= seen);
            assert(next.last() == c);
            if seen.contains('#') {
                let j = choose|j: int| 0 <= j < k && seen[j] == '#';
                assert(next[j] == '#');
            }
            if c == '#' {
                assert(next[k] == '#');
            }
            if names_hue_space(seen) {
                let i = choose|i: int|
                    0 <= i && i + 2 < seen.len() && spells_hue_space(
                        #[trigger] seen[i],
                        seen[i + 1],
                        seen[i + 2],
                    );
                assert(spells_hue_space(next[i], next[i + 1], next[i + 2]));
            }
            if has_full_turn(seen) {
                let i = choose|i: int|
                    0 <= i && i + 2 < seen.len() && spells_full_turn(
                        #[trigger] seen[i],
                        seen[i + 1],
                        seen[i + 2],
                    );
                assert(spells_full_turn(next[i], next[i + 1], next[i + 2]));
            }
            if k >= 2 {
                assert(next[k - 2] == before && next[k - 1] == last && next[k] == c);
            }
            if names_hue_space(next) && !spells_hue_space(before, last, c) {
                let i = choose|i: int|
                    0 <= i && i + 2 < next.len() && spells_hue_space(
                        #[trigger] next[i],
                        next[i + 1],
                        next[i + 2],
                    );
                assert(spells_hue_space(seen[i], seen[i + 1], seen[i + 2]));
            }
            if has_full_turn(next) && !spells_full_turn(before, last, c) {
                let i = choose|i: int|
                    0 <= i && i + 2 < next.len() && spells_full_turn(
                        #[trigger] next[i],
                        next[i + 1],
                        next[i + 2],
                    );
                assert(spells_full_turn(seen[i], seen[i + 1], seen[i + 2]));
            }
        }
        if hex_digit(c) && digits < 5 {
            digits = digits + 1;
        }
        if c == '#' {
            hash = true;
        }
        if hue_space(before, last, c) {
            space = true;
        }
        if full_turn(before, last, c) {
            turn = true;
        }
        before = last;
        last = c;
    }
    proof {
        assert(text@.take(text@.len() as int) =~= text@);
    }
    (hash && digits == 4) || (space && turn)
}

/// Builds the color from what the parser gave.
pub fn color_from_channels(parsed: Option<(u8, u8, u8)>) -> (r: Result<Rgb, Error>)
    ensures
        r == channels_to_color(parsed),
{
    match parsed {
        Some(c) => Ok(Rgb { red: c.0, green: c.1, blue: c.2 }),
        None => Err(Error::InvalidColorSpec),
    }
}

/// Reads a color from its textual form: a hexadecimal form, a color name or
/// a functional notation. A text outside the grammar, or one that the
/// grammar leaves out, is an `InvalidColorSpec`.
pub fn parse_color(text: &str) -> (r: Result<Rgb, Error>)
    ensures
        r == color_of(text@),
{
    if left_out(text) {
        Err(Error::InvalidColorSpec)
    } else {
        color_from_channels(read_channels(text))
    }
}

} // verus!
