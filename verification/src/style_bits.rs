//! The byte Gecko uses for a border-like style: the low bits hold the style
//! keyword and the high bits hold flags about the matching color, which is
//! stored apart as an `nscolor`.
use vstd::prelude::*;
use crate::color::{Color, spec_nscolor, spec_rgba_of, convert_rgba_to_nscolor,
    convert_nscolor_to_rgba, lemma_rgba_nscolor_roundtrip};
use crate::consts;
use crate::keywords::{BorderStyle, spec_border_style_to_gecko, spec_border_style_from_gecko};

verus! {

/// The keyword part of a style byte.
pub open spec fn spec_keyword_bits(bits: u8) -> u8 {
    bits & consts::BORDER_STYLE_MASK
}

/// The color-flag part of a style byte.
pub open spec fn spec_flag_bits(bits: u8) -> u8 {
    bits & !consts::BORDER_STYLE_MASK
}

/// A style byte with its keyword part replaced.
pub open spec fn spec_with_keyword(bits: u8, k: u8) -> u8 {
    (bits & !consts::BORDER_STYLE_MASK) | k
}

/// Whether a style byte says its color is `currentColor`.
pub open spec fn spec_is_current_color(bits: u8) -> bool {
    bits & consts::BORDER_COLOR_FOREGROUND != 0
}

/// A style byte with both special color flags cleared.
pub open spec fn spec_clear_color_flags(bits: u8) -> u8 {
    bits & !consts::BORDER_COLOR_SPECIAL
}

/// The style byte after storing a color: special flags cleared, and the
/// foreground flag set for `currentColor`.
pub open spec fn spec_bits_after_color(bits: u8, c: Color) -> u8 {
    match c {
        Color::CurrentColor => spec_clear_color_flags(bits) | consts::BORDER_COLOR_FOREGROUND,
        Color::Rgba(_) => spec_clear_color_flags(bits),
    }
}

/// The `nscolor` stored for a color; `currentColor` stores zero.
pub open spec fn spec_color_value(c: Color) -> u32 {
    match c {
        Color::CurrentColor => 0,
        Color::Rgba(rgba) => spec_nscolor(rgba),
    }
}

/// The color that a style byte and a stored `nscolor` stand for.
pub open spec fn spec_color_of(bits: u8, value: u32) -> Color {
    if spec_is_current_color(bits) {
        Color::CurrentColor
    } else {
        Color::Rgba(spec_rgba_of(value))
    }
}

/// The style byte after copying the color of another: special flags cleared,
/// and the foreground flag taken from the other byte.
pub open spec fn spec_bits_after_color_copy(bits: u8, other: u8) -> u8 {
    if spec_is_current_color(other) {
        spec_clear_color_flags(bits) | consts::BORDER_COLOR_FOREGROUND
    } else {
        spec_clear_color_flags(bits)
    }
}

/// The border-style keyword held in a style byte, if its keyword part is one.
pub open spec fn spec_border_style_of(bits: u8) -> Option<BorderStyle> {
    spec_border_style_from_gecko(spec_keyword_bits(bits))
}

/// Replaces the keyword part of a style byte.
pub fn with_keyword(bits: u8, k: u8) -> (r: u8)
    ensures
        r == spec_with_keyword(bits, k),
{
    (bits & !consts::BORDER_STYLE_MASK) | k
}

/// The keyword part of a style byte.
pub fn keyword_bits(bits: u8) -> (r: u8)
    ensures
        r == spec_keyword_bits(bits),
{
    bits & consts::BORDER_STYLE_MASK
}

/// Whether the style byte marks its color as `currentColor`.
pub fn is_current_color(bits: u8) -> (r: bool)
    ensures
        r == spec_is_current_color(bits),
{
    (bits & consts::BORDER_COLOR_FOREGROUND) != 0
}

/// Stores a color: returns the new style byte and the `nscolor` to store.
pub fn store_color(bits: u8, c: Color) -> (r: (u8, u32))
    ensures
        r.0 == spec_bits_after_color(bits, c),
        r.1 == spec_color_value(c),
{
    let cleared = bits & !consts::BORDER_COLOR_SPECIAL;
    match c {
        Color::CurrentColor => (cleared | consts::BORDER_COLOR_FOREGROUND, 0),
        Color::Rgba(rgba) => (cleared, convert_rgba_to_nscolor(&rgba)),
    }
}

/// The style byte after copying the color flag of another style byte.
pub fn copy_color_flag(bits: u8, other: u8) -> (r: u8)
    ensures
        r == spec_bits_after_color_copy(bits, other),
{
    let cleared = bits & !consts::BORDER_COLOR_SPECIAL;
    if is_current_color(other) {
        cleared | consts::BORDER_COLOR_FOREGROUND
    } else {
        cleared
    }
}

/// Reads the color stored by a style byte and an `nscolor`.
pub fn load_color(bits: u8, value: u32) -> (r: Color)
    ensures
        r == spec_color_of(bits, value),
{
    if is_current_color(bits) {
        Color::CurrentColor
    } else {
        Color::Rgba(convert_nscolor_to_rgba(value))
    }
}

proof fn lemma_keyword_bits(bits: u8, k: u8)
    by (bit_vector)
    requires
        k <= 0x1F,
    ensures
        ((bits & !0x1Fu8) | k) & 0x1Fu8 == k,
        ((bits & !0x1Fu8) | k) & !0x1Fu8 == bits & !0x1Fu8,
{
}

proof fn lemma_color_bits(bits: u8)
    by (bit_vector)
    ensures
        ((bits & !0x60u8) | 0x20u8) & 0x20u8 != 0,
        (bits & !0x60u8) & 0x20u8 == 0,
        ((bits & !0x60u8) | 0x20u8) & 0x1Fu8 == bits & 0x1Fu8,
        (bits & !0x60u8) & 0x1Fu8 == bits & 0x1Fu8,
{
}

/// Writing a style keyword into a style byte and reading it back gives the
/// keyword, and leaves the color flags as they were.
pub proof fn lemma_style_keyword_set_get(bits: u8, k: BorderStyle)
    ensures
        spec_border_style_of(spec_with_keyword(bits, spec_border_style_to_gecko(k))) == Some(k),
        spec_flag_bits(spec_with_keyword(bits, spec_border_style_to_gecko(k))) == spec_flag_bits(bits),
        spec_is_current_color(spec_with_keyword(bits, spec_border_style_to_gecko(k)))
            == spec_is_current_color(bits),
{
    let n = spec_border_style_to_gecko(k);
    lemma_keyword_bits(bits, n);
    let r = spec_with_keyword(bits, n);
    assert(r & 0x20u8 == (r & !0x1Fu8) & 0x20u8) by (bit_vector);
    assert(bits & 0x20u8 == (bits & !0x1Fu8) & 0x20u8) by (bit_vector);
}

/// Storing a color and reading it back gives the color, and leaves the style
/// keyword as it was.
pub proof fn lemma_color_store_load(bits: u8, c: Color)
    ensures
        spec_color_of(spec_bits_after_color(bits, c), spec_color_value(c)) == c,
        spec_keyword_bits(spec_bits_after_color(bits, c)) == spec_keyword_bits(bits),
{
    lemma_color_bits(bits);
    if let Color::Rgba(rgba) = c {
        lemma_rgba_nscolor_roundtrip(rgba);
    }
}

/// Copying the color of another style byte and color value reads back as the
/// other's color, and leaves the style keyword as it was.
pub proof fn lemma_color_copy(bits: u8, other: u8, value: u32)
    ensures
        spec_color_of(spec_bits_after_color_copy(bits, other), value) == spec_color_of(other, value),
        spec_keyword_bits(spec_bits_after_color_copy(bits, other)) == spec_keyword_bits(bits),
{
    lemma_color_bits(bits);
}

} // verus!
