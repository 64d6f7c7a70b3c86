//! Brightness-to-character mapping over a fixed ten-glyph palette.

use vstd::prelude::*;
use vstd::arithmetic::div_mod::lemma_div_is_ordered;
use vstd::arithmetic::div_mod::lemma_fundamental_div_mod_converse;

verus! {

/// The palette " .:-=+*#%@", ordered from darkest to brightest. Out-of-range
/// indices fall back to the brightest glyph, but `glyph_index` never produces
/// one.
pub open spec fn palette_char(i: int) -> char {
    if i == 0 {
        ' '
    } else if i == 1 {
        '.'
    } else if i == 2 {
        ':'
    } else if i == 3 {
        '-'
    } else if i == 4 {
        '='
    } else if i == 5 {
        '+'
    } else if i == 6 {
        '*'
    } else if i == 7 {
        '#'
    } else if i == 8 {
        '%'
    } else {
        '@'
    }
}

/// The palette slot for a brightness value: round(v / 255 * 9), rounding half
/// up, which always lands in 0..=9.
pub open spec fn glyph_index(v: u8) -> int {
    (18 * v + 255) / 510
}

/// Maps one brightness value to its palette character.
pub fn glyph_char(v: u8) -> (c: char)
    ensures
        c == palette_char(glyph_index(v)),
{
    let idx: u32 = (18 * (v as u32) + 255) / 510;
    proof {
        lemma_glyph_index_range(v);
    }
    if idx == 0 {
        ' '
    } else if idx == 1 {
        '.'
    } else if idx == 2 {
        ':'
    } else if idx == 3 {
        '-'
    } else if idx == 4 {
        '='
    } else if idx == 5 {
        '+'
    } else if idx == 6 {
        '*'
    } else if idx == 7 {
        '#'
    } else if idx == 8 {
        '%'
    } else {
        '@'
    }
}

/// Maps one brightness value to its palette character as a one-character
/// string slice, for building text blocks.
pub fn glyph_str(v: u8) -> (r: &'static str)
    ensures
        r@.len() == 1,
        r@[0] == palette_char(glyph_index(v)),
{
    proof {
        lemma_glyph_index_range(v);
        reveal_strlit(" ");
        reveal_strlit(".");
        reveal_strlit(":");
        reveal_strlit("-");
        reveal_strlit("=");
        reveal_strlit("+");
        reveal_strlit("*");
        reveal_strlit("#");
        reveal_strlit("%");
        reveal_strlit("@");
    }
    let idx: u32 = (18 * (v as u32) + 255) / 510;
    if idx == 0 {
        " "
    } else if idx == 1 {
        "."
    } else if idx == 2 {
        ":"
    } else if idx == 3 {
        "-"
    } else if idx == 4 {
        "="
    } else if idx == 5 {
        "+"
    } else if idx == 6 {
        "*"
    } else if idx == 7 {
        "#"
    } else if idx == 8 {
        "%"
    } else {
        "@"
    }
}

/// The index is always a valid palette slot.
pub proof fn lemma_glyph_index_range(v: u8)
    ensures
        0 <= glyph_index(v) <= 9,
{
    lemma_div_is_ordered(18 * v + 255, (18 * 255 + 255) as int, 510);
}

/// Law: brightness 0 takes the darkest glyph and 255 the brightest, and the
/// palette slot is monotone non-decreasing in the brightness value.
pub proof fn lemma_glyph_extremes_and_monotone(a: u8, b: u8)
    requires
        a <= b,
    ensures
        glyph_index(0) == 0,
        glyph_index(255) == 9,
        palette_char(glyph_index(0)) == ' ',
        palette_char(glyph_index(255)) == '@',
        glyph_index(a) <= glyph_index(b),
{
    lemma_fundamental_div_mod_converse((18 * 255 + 255) as int, 510, 9, 255);
    lemma_div_is_ordered(18 * a + 255, 18 * b + 255, 510);
}

/// No palette character is a line break, whatever the index.
pub proof fn lemma_palette_not_newline(i: int)
    ensures
        palette_char(i) != '\n',
{
}

} // verus!
