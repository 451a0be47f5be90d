//! The inherited text style struct: Gecko's `nsStyleText` with `text-align`,
//! `line-height` and `word-spacing`.
use vstd::prelude::*;
use std::sync::Arc;
use crate::units::Au;
use crate::coord::{StyleCoord, CoordDataValue, CssFloat, LengthOrPercentage, spec_lop_to_coord, calc_to_gecko};
use crate::keywords::{TextAlign, spec_text_align_to_gecko};
use crate::consts;

verus! {

/// A computed `line-height`.
#[derive(Clone, Copy, Debug, PartialEq, Eq, Structural)]
pub enum LineHeight {
    Normal,
    Length(Au),
    Number(CssFloat),
    MozBlockHeight,
}

/// Gecko's `nsStyleText`, as far as the style system reads and writes it.
#[derive(Clone, Copy, Debug, PartialEq, Eq, Structural)]
pub struct NsStyleText {
    pub text_align: u8,
    pub line_height: StyleCoord,
    pub word_spacing: StyleCoord,
}

/// The inherited text style struct.
#[derive(Debug)]
pub struct GeckoInheritedText {
    pub gecko: NsStyleText,
}

/// The coordinate stored for a `line-height`.
pub open spec fn spec_line_height_to_coord(v: LineHeight) -> CoordDataValue {
    match v {
        LineHeight::Normal => CoordDataValue::Normal,
        LineHeight::Length(au) => CoordDataValue::Coord(au.0),
        LineHeight::Number(n) => CoordDataValue::Factor(n),
        LineHeight::MozBlockHeight => CoordDataValue::Enumerated(consts::NS_STYLE_LINE_HEIGHT_BLOCK_HEIGHT),
    }
}

/// The `line-height` a stored coordinate stands for; a unit that no
/// `line-height` is stored as reads as `-moz-block-height`.
pub open spec fn spec_line_height_from_coord(v: CoordDataValue) -> LineHeight {
    match v {
        CoordDataValue::Normal => LineHeight::Normal,
        CoordDataValue::Coord(c) => LineHeight::Length(Au(c)),
        CoordDataValue::Factor(n) => LineHeight::Number(n),
        _ => LineHeight::MozBlockHeight,
    }
}

/// The coordinate stored for a `word-spacing`: `normal` (none) is stored as zero.
pub open spec fn spec_word_spacing_to_coord(v: Option<LengthOrPercentage>) -> CoordDataValue {
    match v {
        Some(l) => spec_lop_to_coord(l),
        None => CoordDataValue::Coord(0),
    }
}

impl GeckoInheritedText {
    /// Whether the struct holds the initial values.
    pub open spec fn is_initial(self) -> bool {
        &&& self.gecko.text_align == consts::NS_STYLE_TEXT_ALIGN_START
        &&& self.gecko.line_height.value == CoordDataValue::Normal
        &&& self.gecko.word_spacing.value == CoordDataValue::Coord(0)
    }

    /// The initial inherited text struct: `text-align: start`,
    /// `line-height: normal`, `word-spacing: normal`.
    pub fn initial() -> (r: Arc<GeckoInheritedText>)
        ensures
            r.is_initial(),
    {
        Arc::new(GeckoInheritedText {
            gecko: NsStyleText {
                text_align: consts::NS_STYLE_TEXT_ALIGN_START,
                line_height: StyleCoord { value: CoordDataValue::Normal },
                word_spacing: StyleCoord { value: CoordDataValue::Coord(0) },
            },
        })
    }

    /// The Gecko struct.
    pub fn get_gecko(&self) -> (r: &NsStyleText)
        ensures
            *r == self.gecko,
    {
        &self.gecko
    }

    /// Sets `text-align`.
    pub fn set_text_align(&mut self, v: TextAlign)
        ensures
            final(self).gecko == (NsStyleText { text_align: spec_text_align_to_gecko(v), ..old(self).gecko }),
    {
        self.gecko.text_align = v.to_gecko();
    }

    /// Copies `text-align` of another struct.
    pub fn copy_text_align_from(&mut self, other: &Self)
        ensures
            final(self).gecko == (NsStyleText { text_align: other.gecko.text_align, ..old(self).gecko }),
    {
        self.gecko.text_align = other.gecko.text_align;
    }

    /// Sets `line-height`.
    pub fn set_line_height(&mut self, v: LineHeight)
        ensures
            final(self).gecko == (NsStyleText {
                line_height: StyleCoord { value: spec_line_height_to_coord(v) },
                ..old(self).gecko
            }),
    {
        let en = match v {
            LineHeight::Normal => CoordDataValue::Normal,
            LineHeight::Length(val) => CoordDataValue::Coord(val.0),
            LineHeight::Number(val) => CoordDataValue::Factor(val),
            LineHeight::MozBlockHeight => CoordDataValue::Enumerated(consts::NS_STYLE_LINE_HEIGHT_BLOCK_HEIGHT),
        };
        self.gecko.line_height.set_value(en);
    }

    /// The computed `line-height`.
    pub fn clone_line_height(&self) -> (r: LineHeight)
        ensures
            r == spec_line_height_from_coord(self.gecko.line_height.value),
    {
        match self.gecko.line_height.as_value() {
            CoordDataValue::Normal => LineHeight::Normal,
            CoordDataValue::Coord(coord) => LineHeight::Length(Au(coord)),
            CoordDataValue::Factor(n) => LineHeight::Number(n),
            _ => LineHeight::MozBlockHeight,
        }
    }

    /// Copies `line-height` of another struct.
    pub fn copy_line_height_from(&mut self, other: &Self)
        ensures
            final(self).gecko == (NsStyleText { line_height: other.gecko.line_height, ..old(self).gecko }),
    {
        self.gecko.line_height.copy_from(&other.gecko.line_height);
    }

    /// Sets `word-spacing`: `normal` (none) is stored as a zero length.
    pub fn set_word_spacing(&mut self, v: Option<LengthOrPercentage>)
        ensures
            final(self).gecko == (NsStyleText {
                word_spacing: StyleCoord { value: spec_word_spacing_to_coord(v) },
                ..old(self).gecko
            }),
    {
        match v {
            Some(lop) => match lop {
                LengthOrPercentage::Length(au) => self.gecko.word_spacing.set_value(CoordDataValue::Coord(au.0)),
                LengthOrPercentage::Percentage(f) => self.gecko.word_spacing.set_value(CoordDataValue::Percent(f)),
                LengthOrPercentage::Calc(l_p) => self.gecko.word_spacing.set_value(CoordDataValue::Calc(calc_to_gecko(l_p))),
            },
            None => self.gecko.word_spacing.set_value(CoordDataValue::Coord(0)),
        }
    }

    /// Copies `word-spacing` of another struct.
    pub fn copy_word_spacing_from(&mut self, other: &Self)
        ensures
            final(self).gecko == (NsStyleText { word_spacing: other.gecko.word_spacing, ..old(self).gecko }),
    {
        self.gecko.word_spacing.copy_from(&other.gecko.word_spacing);
    }
}

impl GeckoInheritedText {
    /// Whether two structs hold the same values.
    pub open spec fn same_as(self, other: Self) -> bool {
        self.gecko == other.gecko
    }
}

impl Clone for GeckoInheritedText {
    fn clone(&self) -> (r: Self)
        ensures
            r.same_as(*self),
    {
        GeckoInheritedText { gecko: self.gecko }
    }
}

/// `normal` is stored as the normal unit, a length as that many app units, a
/// number as a factor and `-moz-block-height` as Gecko's block-height
/// constant; `word-spacing: normal` is stored as a zero length.
pub proof fn lemma_line_height_units(au: Au, n: CssFloat)
    ensures
        spec_line_height_to_coord(LineHeight::Normal) == CoordDataValue::Normal,
        spec_line_height_to_coord(LineHeight::Length(au)) == CoordDataValue::Coord(au.0),
        spec_line_height_to_coord(LineHeight::Number(n)) == CoordDataValue::Factor(n),
        spec_line_height_to_coord(LineHeight::MozBlockHeight)
            == CoordDataValue::Enumerated(consts::NS_STYLE_LINE_HEIGHT_BLOCK_HEIGHT),
        spec_word_spacing_to_coord(None) == CoordDataValue::Coord(0),
{
}

/// Storing a `line-height` and reading it back gives it back.
pub proof fn lemma_line_height_roundtrip(v: LineHeight)
    ensures
        spec_line_height_from_coord(spec_line_height_to_coord(v)) == v,
{
}

} // verus!
