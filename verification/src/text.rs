//! The text style struct: Gecko's `nsStyleTextReset` with the text
//! decoration color and lines.
use vstd::prelude::*;
use std::sync::Arc;
use crate::color::Color;
use crate::keywords::{TextDecorationStyle, spec_text_decoration_style_to_gecko, spec_text_decoration_style_from_gecko};
use crate::style_bits::{spec_with_keyword, spec_keyword_bits, with_keyword, keyword_bits, spec_bits_after_color, spec_color_value, spec_color_of, spec_bits_after_color_copy,
    store_color, copy_color_flag, load_color};
use crate::consts;

verus! {

/// A computed `text-decoration-line`.
#[derive(Clone, Copy, Debug, PartialEq, Eq, Structural)]
pub struct TextDecorationLine {
    pub underline: bool,
    pub overline: bool,
    pub line_through: bool,
}

/// Gecko's `nsStyleTextReset`, as far as the style system reads and writes it.
#[derive(Clone, Copy, Debug, PartialEq, Eq, Structural)]
pub struct NsStyleTextReset {
    /// The decoration style keyword and the color flags.
    pub text_decoration_style: u8,
    /// The decoration color as an `nscolor`.
    pub text_decoration_color: u32,
    /// The decoration line bits.
    pub text_decoration_line: u8,
}

/// The text style struct.
#[derive(Debug)]
pub struct GeckoText {
    pub gecko: NsStyleTextReset,
}

/// The line bits stored for a `text-decoration-line`.
pub open spec fn spec_line_bits(v: TextDecorationLine) -> u8 {
    (if v.underline { consts::NS_STYLE_TEXT_DECORATION_LINE_UNDERLINE } else { 0u8 })
        | (if v.overline { consts::NS_STYLE_TEXT_DECORATION_LINE_OVERLINE } else { 0u8 })
        | (if v.line_through { consts::NS_STYLE_TEXT_DECORATION_LINE_LINE_THROUGH } else { 0u8 })
}

impl GeckoText {
    /// Whether the struct holds the initial values.
    pub open spec fn is_initial(self) -> bool {
        &&& self.gecko.text_decoration_style == (consts::NS_STYLE_TEXT_DECORATION_STYLE_SOLID | consts::BORDER_COLOR_FOREGROUND)
        &&& self.gecko.text_decoration_color == 0
        &&& self.gecko.text_decoration_line == 0
    }

    /// The initial text struct: a solid `currentColor` decoration and no lines.
    pub fn initial() -> (r: Arc<GeckoText>)
        ensures
            r.is_initial(),
    {
        Arc::new(GeckoText {
            gecko: NsStyleTextReset {
                text_decoration_style: consts::NS_STYLE_TEXT_DECORATION_STYLE_SOLID | consts::BORDER_COLOR_FOREGROUND,
                text_decoration_color: 0,
                text_decoration_line: 0,
            },
        })
    }

    /// The Gecko struct.
    pub fn get_gecko(&self) -> (r: &NsStyleTextReset)
        ensures
            *r == self.gecko,
    {
        &self.gecko
    }

    /// Sets `text-decoration-style`, keeping the color flags.
    pub fn set_text_decoration_style(&mut self, v: TextDecorationStyle)
        ensures
            final(self).gecko == (NsStyleTextReset {
                text_decoration_style: spec_with_keyword(old(self).gecko.text_decoration_style,
                    spec_text_decoration_style_to_gecko(v)),
                ..old(self).gecko
            }),
    {
        self.gecko.text_decoration_style = with_keyword(self.gecko.text_decoration_style, v.to_gecko());
    }

    /// Copies the whole `text-decoration-style` byte (keyword and color flags) of another struct.
    pub fn copy_text_decoration_style_from(&mut self, other: &Self)
        ensures
            final(self).gecko == (NsStyleTextReset { text_decoration_style: other.gecko.text_decoration_style, ..old(self).gecko }),
    {
        self.gecko.text_decoration_style = other.gecko.text_decoration_style;
    }

    /// The computed `text-decoration-style`; the stored keyword must be a known one.
    pub fn clone_text_decoration_style(&self) -> (r: TextDecorationStyle)
        requires
            spec_text_decoration_style_from_gecko(spec_keyword_bits(self.gecko.text_decoration_style)) is Some,
        ensures
            Some(r) == spec_text_decoration_style_from_gecko(spec_keyword_bits(self.gecko.text_decoration_style)),
    {
        match TextDecorationStyle::from_gecko(keyword_bits(self.gecko.text_decoration_style)) {
            Some(k) => k,
            None => {
                assert(false);
                TextDecorationStyle::Solid
            },
        }
    }

    /// Sets `text-decoration-color`: `currentColor` is kept as a flag in the style byte.
    pub fn set_text_decoration_color(&mut self, v: Color)
        ensures
            final(self).gecko == (NsStyleTextReset {
                text_decoration_style: spec_bits_after_color(old(self).gecko.text_decoration_style, v),
                text_decoration_color: spec_color_value(v),
                ..old(self).gecko
            }),
    {
        let (bits, value) = store_color(self.gecko.text_decoration_style, v);
        self.gecko.text_decoration_style = bits;
        self.gecko.text_decoration_color = value;
    }

    /// Copies `text-decoration-color` (the `currentColor` flag and the color value) of another struct.
    pub fn copy_text_decoration_color_from(&mut self, other: &Self)
        ensures
            final(self).gecko == (NsStyleTextReset {
                text_decoration_style: spec_bits_after_color_copy(old(self).gecko.text_decoration_style,
                    other.gecko.text_decoration_style),
                text_decoration_color: other.gecko.text_decoration_color,
                ..old(self).gecko
            }),
    {
        self.gecko.text_decoration_style = copy_color_flag(self.gecko.text_decoration_style,
            other.gecko.text_decoration_style);
        self.gecko.text_decoration_color = other.gecko.text_decoration_color;
    }

    /// The computed `text-decoration-color`.
    pub fn clone_text_decoration_color(&self) -> (r: Color)
        ensures
            r == spec_color_of(self.gecko.text_decoration_style, self.gecko.text_decoration_color),
    {
        load_color(self.gecko.text_decoration_style, self.gecko.text_decoration_color)
    }

    /// Sets `text-decoration-line`: one bit per line.
    pub fn set_text_decoration_line(&mut self, v: TextDecorationLine)
        ensures
            final(self).gecko == (NsStyleTextReset { text_decoration_line: spec_line_bits(v), ..old(self).gecko }),
    {
        let mut bits: u8 = 0;
        if v.underline {
            bits = bits | consts::NS_STYLE_TEXT_DECORATION_LINE_UNDERLINE;
        }
        if v.overline {
            bits = bits | consts::NS_STYLE_TEXT_DECORATION_LINE_OVERLINE;
        }
        if v.line_through {
            bits = bits | consts::NS_STYLE_TEXT_DECORATION_LINE_LINE_THROUGH;
        }
        proof {
            lemma_line_bits_build(v.underline, v.overline, v.line_through);
        }
        self.gecko.text_decoration_line = bits;
    }

    /// Copies `text-decoration-line` of another struct.
    pub fn copy_text_decoration_line_from(&mut self, other: &Self)
        ensures
            final(self).gecko == (NsStyleTextReset { text_decoration_line: other.gecko.text_decoration_line, ..old(self).gecko }),
    {
        self.gecko.text_decoration_line = other.gecko.text_decoration_line;
    }

    /// Whether the decoration lines include an underline.
    pub fn has_underline(&self) -> (r: bool)
        ensures
            r == (self.gecko.text_decoration_line & consts::NS_STYLE_TEXT_DECORATION_LINE_UNDERLINE != 0),
    {
        (self.gecko.text_decoration_line & consts::NS_STYLE_TEXT_DECORATION_LINE_UNDERLINE) != 0
    }

    /// Whether the decoration lines include an overline.
    pub fn has_overline(&self) -> (r: bool)
        ensures
            r == (self.gecko.text_decoration_line & consts::NS_STYLE_TEXT_DECORATION_LINE_OVERLINE != 0),
    {
        (self.gecko.text_decoration_line & consts::NS_STYLE_TEXT_DECORATION_LINE_OVERLINE) != 0
    }

    /// Whether the decoration lines include a line through.
    pub fn has_line_through(&self) -> (r: bool)
        ensures
            r == (self.gecko.text_decoration_line & consts::NS_STYLE_TEXT_DECORATION_LINE_LINE_THROUGH != 0),
    {
        (self.gecko.text_decoration_line & consts::NS_STYLE_TEXT_DECORATION_LINE_LINE_THROUGH) != 0
    }
}

impl GeckoText {
    /// Whether two structs hold the same values.
    pub open spec fn same_as(self, other: Self) -> bool {
        self.gecko == other.gecko
    }
}

impl Clone for GeckoText {
    fn clone(&self) -> (r: Self)
        ensures
            r.same_as(*self),
    {
        GeckoText { gecko: self.gecko }
    }
}

proof fn lemma_line_bits_build(u: bool, o: bool, l: bool)
    ensures
        ({
            let b0: u8 = 0;
            let b1: u8 = if u { b0 | 1u8 } else { b0 };
            let b2: u8 = if o { b1 | 2u8 } else { b1 };
            let b3: u8 = if l { b2 | 4u8 } else { b2 };
            b3 == (if u { 1u8 } else { 0u8 }) | (if o { 2u8 } else { 0u8 }) | (if l { 4u8 } else { 0u8 })
        }),
{
    assert(forall|x: u8| #![auto] (0u8 | x) == x) by (bit_vector);
    assert(forall|x: u8, y: u8| #![auto] (x | y) == (y | x)) by (bit_vector);
    assert(forall|x: u8, y: u8, z: u8| #![auto] ((x | y) | z) == (x | (y | z))) by (bit_vector);
    assert(forall|x: u8| #![auto] (x | 0u8) == x) by (bit_vector);
}

/// Writing a decoration style keyword and reading it back gives the keyword,
/// and leaves the color, which the style byte's flags take part in, as it was.
pub proof fn lemma_decoration_style_set_get(bits: u8, value: u32, k: TextDecorationStyle)
    ensures
        spec_text_decoration_style_from_gecko(spec_keyword_bits(spec_with_keyword(bits,
            spec_text_decoration_style_to_gecko(k)))) == Some(k),
        spec_color_of(spec_with_keyword(bits, spec_text_decoration_style_to_gecko(k)), value)
            == spec_color_of(bits, value),
{
    let n = spec_text_decoration_style_to_gecko(k);
    assert(n <= 0x1Fu8 ==> ((bits & !0x1Fu8) | n) & 0x1Fu8 == n) by (bit_vector);
    assert(n <= 0x1Fu8 ==> (((bits & !0x1Fu8) | n) & 0x20u8 != 0) == (bits & 0x20u8 != 0)) by (bit_vector);
    crate::keywords::lemma_text_decoration_style_roundtrip(k, 0);
}

/// After `text-decoration-line` is set, each line query answers whether that
/// line was set.
pub proof fn lemma_decoration_lines_set_get(v: TextDecorationLine)
    ensures
        (spec_line_bits(v) & consts::NS_STYLE_TEXT_DECORATION_LINE_UNDERLINE != 0) == v.underline,
        (spec_line_bits(v) & consts::NS_STYLE_TEXT_DECORATION_LINE_OVERLINE != 0) == v.overline,
        (spec_line_bits(v) & consts::NS_STYLE_TEXT_DECORATION_LINE_LINE_THROUGH != 0) == v.line_through,
{
    let u: u8 = if v.underline { 1u8 } else { 0u8 };
    let o: u8 = if v.overline { 2u8 } else { 0u8 };
    let l: u8 = if v.line_through { 4u8 } else { 0u8 };
    assert(spec_line_bits(v) == u | o | l);
    assert((u == 0u8 || u == 1u8) && (o == 0u8 || o == 2u8) && (l == 0u8 || l == 4u8) ==> {
        &&& ((u | o | l) & 1u8 != 0) == (u == 1u8)
        &&& ((u | o | l) & 2u8 != 0) == (o == 2u8)
        &&& ((u | o | l) & 4u8 != 0) == (l == 4u8)
    }) by (bit_vector);
}

} // verus!
