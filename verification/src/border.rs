//! The border style struct: Gecko's `nsStyleBorder` and the accessors that
//! convert computed border values into it and back.
use vstd::prelude::*;
use std::sync::Arc;
use crate::units::{Au, round_border_to_device_pixels, spec_round_border, can_round_border, lemma_round_border_in_range};
use crate::color::Color;
use crate::coord::{StyleCoord, CoordDataValue, LengthOrPercentage, BorderRadiusSize,
    spec_lop_to_coord, spec_lop_from_coord};
use crate::keywords::{BorderStyle, spec_border_style_to_gecko};
use crate::sides::{Side, Corner};
use crate::coord::lemma_lop_roundtrip;
use crate::style_bits::{lemma_style_keyword_set_get, lemma_color_store_load, lemma_color_copy, spec_with_keyword, spec_border_style_of, spec_bits_after_color,
    spec_color_value, spec_color_of, spec_bits_after_color_copy, with_keyword, keyword_bits,
    store_color, copy_color_flag, load_color};
use crate::consts;

verus! {

/// Gecko's `nsStyleBorder`, as far as the style system reads and writes it.
#[derive(Clone, Copy, Debug)]
pub struct NsStyleBorder {
    /// Per side: the style keyword and the color flags.
    pub border_style: [u8; 4],
    /// Per side: the border color as an `nscolor`.
    pub border_color: [u32; 4],
    /// Per side: the computed border width in app units.
    pub computed_border: [i32; 4],
    /// App units per device pixel.
    pub twips_per_pixel: i32,
    /// Per corner: horizontal and vertical radius.
    pub border_radius: [StyleCoord; 8],
}

/// The border style struct.
#[derive(Debug)]
pub struct GeckoBorder {
    pub gecko: NsStyleBorder,
}

/// A longhand property of the border struct.
#[derive(Clone, Copy, Debug, PartialEq, Eq, Structural)]
pub enum BorderLonghand {
    Style(Side),
    Color(Side),
    Width(Side),
    Radius(Corner),
}

/// A computed value of a longhand property of the border struct.
#[derive(Clone, Copy, Debug, PartialEq, Eq, Structural)]
pub enum BorderValue {
    Style(Side, BorderStyle),
    Color(Side, Color),
    Width(Side, Au),
    Radius(Corner, BorderRadiusSize),
}

impl GeckoBorder {
    /// The border-style keyword stored for a side, if the stored value is one.
    pub open spec fn style_at(self, side: Side) -> Option<BorderStyle> {
        spec_border_style_of(self.gecko.border_style@[side.spec_index()])
    }

    /// The border color stored for a side.
    pub open spec fn color_at(self, side: Side) -> Color {
        spec_color_of(self.gecko.border_style@[side.spec_index()], self.gecko.border_color@[side.spec_index()])
    }

    /// The radius stored for a corner, if both coordinates hold lengths.
    pub open spec fn radius_at(self, corner: Corner) -> Option<BorderRadiusSize> {
        match (spec_lop_from_coord(self.gecko.border_radius@[corner.spec_x_index()].value),
            spec_lop_from_coord(self.gecko.border_radius@[corner.spec_y_index()].value)) {
            (Some(w), Some(h)) => Some(BorderRadiusSize { width: w, height: h }),
            _ => None,
        }
    }

    /// The computed value of a longhand, if what is stored for it reads as one.
    pub open spec fn value_of(self, id: BorderLonghand) -> Option<BorderValue> {
        match id {
            BorderLonghand::Style(side) => match self.style_at(side) {
                Some(k) => Some(BorderValue::Style(side, k)),
                None => None,
            },
            BorderLonghand::Color(side) => Some(BorderValue::Color(side, self.color_at(side))),
            BorderLonghand::Width(side) => Some(BorderValue::Width(side, Au(self.gecko.computed_border@[side.spec_index()]))),
            BorderLonghand::Radius(corner) => match self.radius_at(corner) {
                Some(r) => Some(BorderValue::Radius(corner, r)),
                None => None,
            },
        }
    }

    /// Whether a value can be set: a non-zero width is divided by the
    /// device pixel size, which must allow that division.
    pub open spec fn can_set(self, v: BorderValue) -> bool {
        v matches BorderValue::Width(_, w) ==> can_round_border(w.0 as int, self.gecko.twips_per_pixel as int)
    }

    /// How setting a longhand changes the struct: only the fields of that
    /// longhand change.
    pub open spec fn after_set(old: Self, new: Self, v: BorderValue) -> bool {
        match v {
            BorderValue::Style(side, k) => {
                let i = side.spec_index();
                &&& new.gecko.border_style@ == old.gecko.border_style@.update(i,
                    spec_with_keyword(old.gecko.border_style@[i], spec_border_style_to_gecko(k)))
        &&& new.gecko.border_color == old.gecko.border_color
        &&& new.gecko.computed_border == old.gecko.computed_border
        &&& new.gecko.twips_per_pixel == old.gecko.twips_per_pixel
        &&& new.gecko.border_radius == old.gecko.border_radius
            },
            BorderValue::Color(side, c) => {
                let i = side.spec_index();
                &&& new.gecko.border_style@ == old.gecko.border_style@.update(i,
                    spec_bits_after_color(old.gecko.border_style@[i], c))
                &&& new.gecko.border_color@ == old.gecko.border_color@.update(i, spec_color_value(c))
        &&& new.gecko.computed_border == old.gecko.computed_border
        &&& new.gecko.twips_per_pixel == old.gecko.twips_per_pixel
        &&& new.gecko.border_radius == old.gecko.border_radius
            },
            BorderValue::Width(side, w) => {
                let i = side.spec_index();
                &&& new.gecko.computed_border@ == old.gecko.computed_border@.update(i,
                    spec_round_border(w.0 as int, old.gecko.twips_per_pixel as int) as i32)
        &&& new.gecko.border_style == old.gecko.border_style
        &&& new.gecko.border_color == old.gecko.border_color
        &&& new.gecko.twips_per_pixel == old.gecko.twips_per_pixel
        &&& new.gecko.border_radius == old.gecko.border_radius
            },
            BorderValue::Radius(corner, r) => {
                &&& new.gecko.border_radius@ == old.gecko.border_radius@.update(
                    corner.spec_x_index(), StyleCoord { value: spec_lop_to_coord(r.width) }).update(
                    corner.spec_y_index(), StyleCoord { value: spec_lop_to_coord(r.height) })
        &&& new.gecko.border_style == old.gecko.border_style
        &&& new.gecko.border_color == old.gecko.border_color
        &&& new.gecko.computed_border == old.gecko.computed_border
        &&& new.gecko.twips_per_pixel == old.gecko.twips_per_pixel
            },
        }
    }

    /// How copying a longhand from another struct changes the struct: the
    /// stored fields of that longhand are taken from the other struct, except
    /// that a color copy keeps this struct's style keyword.
    pub open spec fn after_copy(old: Self, new: Self, other: Self, id: BorderLonghand) -> bool {
        match id {
            BorderLonghand::Style(side) => {
                let i = side.spec_index();
                &&& new.gecko.border_style@ == old.gecko.border_style@.update(i, other.gecko.border_style@[i])
        &&& new.gecko.border_color == old.gecko.border_color
        &&& new.gecko.computed_border == old.gecko.computed_border
        &&& new.gecko.twips_per_pixel == old.gecko.twips_per_pixel
        &&& new.gecko.border_radius == old.gecko.border_radius
            },
            BorderLonghand::Color(side) => {
                let i = side.spec_index();
                &&& new.gecko.border_style@ == old.gecko.border_style@.update(i,
                    spec_bits_after_color_copy(old.gecko.border_style@[i], other.gecko.border_style@[i]))
                &&& new.gecko.border_color@ == old.gecko.border_color@.update(i, other.gecko.border_color@[i])
        &&& new.gecko.computed_border == old.gecko.computed_border
        &&& new.gecko.twips_per_pixel == old.gecko.twips_per_pixel
        &&& new.gecko.border_radius == old.gecko.border_radius
            },
            BorderLonghand::Width(side) => {
                let i = side.spec_index();
                &&& new.gecko.computed_border@ == old.gecko.computed_border@.update(i, other.gecko.computed_border@[i])
        &&& new.gecko.border_style == old.gecko.border_style
        &&& new.gecko.border_color == old.gecko.border_color
        &&& new.gecko.twips_per_pixel == old.gecko.twips_per_pixel
        &&& new.gecko.border_radius == old.gecko.border_radius
            },
            BorderLonghand::Radius(corner) => {
                let x = corner.spec_x_index();
                let y = corner.spec_y_index();
                &&& new.gecko.border_radius@ == old.gecko.border_radius@.update(
                    x, other.gecko.border_radius@[x]).update(y, other.gecko.border_radius@[y])
        &&& new.gecko.border_style == old.gecko.border_style
        &&& new.gecko.border_color == old.gecko.border_color
        &&& new.gecko.computed_border == old.gecko.computed_border
        &&& new.gecko.twips_per_pixel == old.gecko.twips_per_pixel
            },
        }
    }

    /// Whether the struct holds the initial values.
    pub open spec fn is_initial(self) -> bool {
        &&& forall|i: int| 0 <= i < 4 ==> self.gecko.border_style@[i] == (consts::NS_STYLE_BORDER_STYLE_NONE | consts::BORDER_COLOR_FOREGROUND)
        &&& forall|i: int| 0 <= i < 4 ==> self.gecko.border_color@[i] == 0
        &&& forall|i: int| 0 <= i < 4 ==> self.gecko.computed_border@[i] == 0
        &&& forall|i: int| 0 <= i < 8 ==> self.gecko.border_radius@[i].value == CoordDataValue::Coord(0)
        &&& self.gecko.twips_per_pixel == consts::AU_PER_DEVICE_PX_DEFAULT
    }

    /// The initial border struct: no border style, `currentColor` borders,
    /// zero widths and zero radii.
    pub fn initial() -> (r: Arc<GeckoBorder>)
        ensures
            r.is_initial(),
    {
        let s = consts::NS_STYLE_BORDER_STYLE_NONE | consts::BORDER_COLOR_FOREGROUND;
        let z = StyleCoord { value: CoordDataValue::Coord(0) };
        Arc::new(GeckoBorder {
            gecko: NsStyleBorder {
                border_style: [s, s, s, s],
                border_color: [0, 0, 0, 0],
                computed_border: [0, 0, 0, 0],
                twips_per_pixel: consts::AU_PER_DEVICE_PX_DEFAULT,
                border_radius: [z, z, z, z, z, z, z, z],
            },
        })
    }

    /// The Gecko struct.
    pub fn get_gecko(&self) -> (r: &NsStyleBorder)
        ensures
            *r == self.gecko,
    {
        &self.gecko
    }

    /// Sets a longhand of the border struct.
    pub fn set_(&mut self, v: BorderValue)
        requires
            old(self).can_set(v),
        ensures
            Self::after_set(*old(self), *final(self), v),
    {
        match v {
            BorderValue::Style(side, k) => {
                let i = side.index();
                let bits = with_keyword(self.gecko.border_style[i], k.to_gecko());
                self.gecko.border_style[i] = bits;
            },
            BorderValue::Color(side, c) => {
                let i = side.index();
                let (bits, value) = store_color(self.gecko.border_style[i], c);
                self.gecko.border_style[i] = bits;
                self.gecko.border_color[i] = value;
            },
            BorderValue::Width(side, w) => {
                let i = side.index();
                let au_per_device_px = Au(self.gecko.twips_per_pixel);
                self.gecko.computed_border[i] = round_border_to_device_pixels(w, au_per_device_px).0;
            },
            BorderValue::Radius(corner, r) => {
                let x = corner.x_index();
                let y = corner.y_index();
                let mut cx = self.gecko.border_radius[x];
                r.width.to_gecko_style_coord(&mut cx);
                self.gecko.border_radius[x] = cx;
                let mut cy = self.gecko.border_radius[y];
                r.height.to_gecko_style_coord(&mut cy);
                self.gecko.border_radius[y] = cy;
            },
        }
    }

    /// Copies a longhand of the border struct from another one.
    pub fn copy_(&mut self, other: &Self, id: BorderLonghand)
        ensures
            Self::after_copy(*old(self), *final(self), *other, id),
    {
        match id {
            BorderLonghand::Style(side) => {
                let i = side.index();
                self.gecko.border_style[i] = other.gecko.border_style[i];
            },
            BorderLonghand::Color(side) => {
                let i = side.index();
                let bits = copy_color_flag(self.gecko.border_style[i], other.gecko.border_style[i]);
                self.gecko.border_style[i] = bits;
                self.gecko.border_color[i] = other.gecko.border_color[i];
            },
            BorderLonghand::Width(side) => {
                let i = side.index();
                self.gecko.computed_border[i] = other.gecko.computed_border[i];
            },
            BorderLonghand::Radius(corner) => {
                let x = corner.x_index();
                let y = corner.y_index();
                self.gecko.border_radius[x].copy_from(&other.gecko.border_radius[x]);
                self.gecko.border_radius[y].copy_from(&other.gecko.border_radius[y]);
            },
        }
    }

    /// The computed value of a longhand of the border struct; what is stored
    /// for it must read as a value of the longhand.
    pub fn clone_(&self, id: BorderLonghand) -> (r: BorderValue)
        requires
            self.value_of(id) is Some,
        ensures
            Some(r) == self.value_of(id),
    {
        match id {
            BorderLonghand::Style(side) => {
                match BorderStyle::from_gecko(keyword_bits(self.gecko.border_style[side.index()])) {
                    Some(k) => BorderValue::Style(side, k),
                    None => {
                        assert(false);
                        BorderValue::Style(side, BorderStyle::None_)
                    },
                }
            },
            BorderLonghand::Color(side) => {
                let i = side.index();
                BorderValue::Color(side, load_color(self.gecko.border_style[i], self.gecko.border_color[i]))
            },
            BorderLonghand::Width(side) => BorderValue::Width(side, Au(self.gecko.computed_border[side.index()])),
            BorderLonghand::Radius(corner) => {
                let w = LengthOrPercentage::from_gecko_style_coord(&self.gecko.border_radius[corner.x_index()]);
                let h = LengthOrPercentage::from_gecko_style_coord(&self.gecko.border_radius[corner.y_index()]);
                match (w, h) {
                    (Some(width), Some(height)) => BorderValue::Radius(corner, BorderRadiusSize { width, height }),
                    _ => {
                        assert(false);
                        BorderValue::Width(Side::Top, Au(0))
                    },
                }
            },
        }
    }

    /// Whether the computed border width of a side is not zero.
    pub fn border_has_nonzero_width(&self, side: Side) -> (r: bool)
        ensures
            r == (self.gecko.computed_border@[side.spec_index()] != 0),
    {
        self.gecko.computed_border[side.index()] != 0
    }

    /// Sets `border-top-style`, keeping the side's color flags.
    pub fn set_border_top_style(&mut self, v: BorderStyle)
        ensures
            Self::after_set(*old(self), *final(self), BorderValue::Style(Side::Top, v)),
    {
        self.set_(BorderValue::Style(Side::Top, v));
    }

    /// Copies the whole `border-top-style` byte (keyword and color flags) of another struct.
    pub fn copy_border_top_style_from(&mut self, other: &Self)
        ensures
            Self::after_copy(*old(self), *final(self), *other, BorderLonghand::Style(Side::Top)),
    {
        self.copy_(other, BorderLonghand::Style(Side::Top));
    }

    /// The computed `border-top-style`; the stored keyword must be a known one.
    pub fn clone_border_top_style(&self) -> (r: BorderStyle)
        requires
            self.style_at(Side::Top) is Some,
        ensures
            Some(r) == self.style_at(Side::Top),
    {
        match self.clone_(BorderLonghand::Style(Side::Top)) {
            BorderValue::Style(_, k) => k,
            _ => {
                assert(false);
                BorderStyle::None_
            },
        }
    }

    /// Sets `border-top-color`: `currentColor` is kept as a flag in the style byte.
    pub fn set_border_top_color(&mut self, v: Color)
        ensures
            Self::after_set(*old(self), *final(self), BorderValue::Color(Side::Top, v)),
    {
        self.set_(BorderValue::Color(Side::Top, v));
    }

    /// Copies `border-top-color` (the `currentColor` flag and the color value) of another struct.
    pub fn copy_border_top_color_from(&mut self, other: &Self)
        ensures
            Self::after_copy(*old(self), *final(self), *other, BorderLonghand::Color(Side::Top)),
    {
        self.copy_(other, BorderLonghand::Color(Side::Top));
    }

    /// The computed `border-top-color`.
    pub fn clone_border_top_color(&self) -> (r: Color)
        ensures
            r == self.color_at(Side::Top),
    {
        match self.clone_(BorderLonghand::Color(Side::Top)) {
            BorderValue::Color(_, c) => c,
            _ => {
                assert(false);
                Color::CurrentColor
            },
        }
    }

    /// Sets `border-top-width`, rounded to whole device pixels.
    pub fn set_border_top_width(&mut self, v: Au)
        requires
            can_round_border(v.0 as int, old(self).gecko.twips_per_pixel as int),
        ensures
            Self::after_set(*old(self), *final(self), BorderValue::Width(Side::Top, v)),
    {
        self.set_(BorderValue::Width(Side::Top, v));
    }

    /// Copies `border-top-width` of another struct.
    pub fn copy_border_top_width_from(&mut self, other: &Self)
        ensures
            Self::after_copy(*old(self), *final(self), *other, BorderLonghand::Width(Side::Top)),
    {
        self.copy_(other, BorderLonghand::Width(Side::Top));
    }

    /// The computed `border-top-width`.
    pub fn clone_border_top_width(&self) -> (r: Au)
        ensures
            r.0 == self.gecko.computed_border@[Side::Top.spec_index()],
    {
        Au(self.gecko.computed_border[Side::Top.index()])
    }

    /// Whether the computed `border-top-width` is not zero.
    pub fn border_top_has_nonzero_width(&self) -> (r: bool)
        ensures
            r == (self.gecko.computed_border@[Side::Top.spec_index()] != 0),
    {
        self.border_has_nonzero_width(Side::Top)
    }

    /// Sets `border-right-style`, keeping the side's color flags.
    pub fn set_border_right_style(&mut self, v: BorderStyle)
        ensures
            Self::after_set(*old(self), *final(self), BorderValue::Style(Side::Right, v)),
    {
        self.set_(BorderValue::Style(Side::Right, v));
    }

    /// Copies the whole `border-right-style` byte (keyword and color flags) of another struct.
    pub fn copy_border_right_style_from(&mut self, other: &Self)
        ensures
            Self::after_copy(*old(self), *final(self), *other, BorderLonghand::Style(Side::Right)),
    {
        self.copy_(other, BorderLonghand::Style(Side::Right));
    }

    /// The computed `border-right-style`; the stored keyword must be a known one.
    pub fn clone_border_right_style(&self) -> (r: BorderStyle)
        requires
            self.style_at(Side::Right) is Some,
        ensures
            Some(r) == self.style_at(Side::Right),
    {
        match self.clone_(BorderLonghand::Style(Side::Right)) {
            BorderValue::Style(_, k) => k,
            _ => {
                assert(false);
                BorderStyle::None_
            },
        }
    }

    /// Sets `border-right-color`: `currentColor` is kept as a flag in the style byte.
    pub fn set_border_right_color(&mut self, v: Color)
        ensures
            Self::after_set(*old(self), *final(self), BorderValue::Color(Side::Right, v)),
    {
        self.set_(BorderValue::Color(Side::Right, v));
    }

    /// Copies `border-right-color` (the `currentColor` flag and the color value) of another struct.
    pub fn copy_border_right_color_from(&mut self, other: &Self)
        ensures
            Self::after_copy(*old(self), *final(self), *other, BorderLonghand::Color(Side::Right)),
    {
        self.copy_(other, BorderLonghand::Color(Side::Right));
    }

    /// The computed `border-right-color`.
    pub fn clone_border_right_color(&self) -> (r: Color)
        ensures
            r == self.color_at(Side::Right),
    {
        match self.clone_(BorderLonghand::Color(Side::Right)) {
            BorderValue::Color(_, c) => c,
            _ => {
                assert(false);
                Color::CurrentColor
            },
        }
    }

    /// Sets `border-right-width`, rounded to whole device pixels.
    pub fn set_border_right_width(&mut self, v: Au)
        requires
            can_round_border(v.0 as int, old(self).gecko.twips_per_pixel as int),
        ensures
            Self::after_set(*old(self), *final(self), BorderValue::Width(Side::Right, v)),
    {
        self.set_(BorderValue::Width(Side::Right, v));
    }

    /// Copies `border-right-width` of another struct.
    pub fn copy_border_right_width_from(&mut self, other: &Self)
        ensures
            Self::after_copy(*old(self), *final(self), *other, BorderLonghand::Width(Side::Right)),
    {
        self.copy_(other, BorderLonghand::Width(Side::Right));
    }

    /// The computed `border-right-width`.
    pub fn clone_border_right_width(&self) -> (r: Au)
        ensures
            r.0 == self.gecko.computed_border@[Side::Right.spec_index()],
    {
        Au(self.gecko.computed_border[Side::Right.index()])
    }

    /// Whether the computed `border-right-width` is not zero.
    pub fn border_right_has_nonzero_width(&self) -> (r: bool)
        ensures
            r == (self.gecko.computed_border@[Side::Right.spec_index()] != 0),
    {
        self.border_has_nonzero_width(Side::Right)
    }

    /// Sets `border-bottom-style`, keeping the side's color flags.
    pub fn set_border_bottom_style(&mut self, v: BorderStyle)
        ensures
            Self::after_set(*old(self), *final(self), BorderValue::Style(Side::Bottom, v)),
    {
        self.set_(BorderValue::Style(Side::Bottom, v));
    }

    /// Copies the whole `border-bottom-style` byte (keyword and color flags) of another struct.
    pub fn copy_border_bottom_style_from(&mut self, other: &Self)
        ensures
            Self::after_copy(*old(self), *final(self), *other, BorderLonghand::Style(Side::Bottom)),
    {
        self.copy_(other, BorderLonghand::Style(Side::Bottom));
    }

    /// The computed `border-bottom-style`; the stored keyword must be a known one.
    pub fn clone_border_bottom_style(&self) -> (r: BorderStyle)
        requires
            self.style_at(Side::Bottom) is Some,
        ensures
            Some(r) == self.style_at(Side::Bottom),
    {
        match self.clone_(BorderLonghand::Style(Side::Bottom)) {
            BorderValue::Style(_, k) => k,
            _ => {
                assert(false);
                BorderStyle::None_
            },
        }
    }

    /// Sets `border-bottom-color`: `currentColor` is kept as a flag in the style byte.
    pub fn set_border_bottom_color(&mut self, v: Color)
        ensures
            Self::after_set(*old(self), *final(self), BorderValue::Color(Side::Bottom, v)),
    {
        self.set_(BorderValue::Color(Side::Bottom, v));
    }

    /// Copies `border-bottom-color` (the `currentColor` flag and the color value) of another struct.
    pub fn copy_border_bottom_color_from(&mut self, other: &Self)
        ensures
            Self::after_copy(*old(self), *final(self), *other, BorderLonghand::Color(Side::Bottom)),
    {
        self.copy_(other, BorderLonghand::Color(Side::Bottom));
    }

    /// The computed `border-bottom-color`.
    pub fn clone_border_bottom_color(&self) -> (r: Color)
        ensures
            r == self.color_at(Side::Bottom),
    {
        match self.clone_(BorderLonghand::Color(Side::Bottom)) {
            BorderValue::Color(_, c) => c,
            _ => {
                assert(false);
                Color::CurrentColor
            },
        }
    }

    /// Sets `border-bottom-width`, rounded to whole device pixels.
    pub fn set_border_bottom_width(&mut self, v: Au)
        requires
            can_round_border(v.0 as int, old(self).gecko.twips_per_pixel as int),
        ensures
            Self::after_set(*old(self), *final(self), BorderValue::Width(Side::Bottom, v)),
    {
        self.set_(BorderValue::Width(Side::Bottom, v));
    }

    /// Copies `border-bottom-width` of another struct.
    pub fn copy_border_bottom_width_from(&mut self, other: &Self)
        ensures
            Self::after_copy(*old(self), *final(self), *other, BorderLonghand::Width(Side::Bottom)),
    {
        self.copy_(other, BorderLonghand::Width(Side::Bottom));
    }

    /// The computed `border-bottom-width`.
    pub fn clone_border_bottom_width(&self) -> (r: Au)
        ensures
            r.0 == self.gecko.computed_border@[Side::Bottom.spec_index()],
    {
        Au(self.gecko.computed_border[Side::Bottom.index()])
    }

    /// Whether the computed `border-bottom-width` is not zero.
    pub fn border_bottom_has_nonzero_width(&self) -> (r: bool)
        ensures
            r == (self.gecko.computed_border@[Side::Bottom.spec_index()] != 0),
    {
        self.border_has_nonzero_width(Side::Bottom)
    }

    /// Sets `border-left-style`, keeping the side's color flags.
    pub fn set_border_left_style(&mut self, v: BorderStyle)
        ensures
            Self::after_set(*old(self), *final(self), BorderValue::Style(Side::Left, v)),
    {
        self.set_(BorderValue::Style(Side::Left, v));
    }

    /// Copies the whole `border-left-style` byte (keyword and color flags) of another struct.
    pub fn copy_border_left_style_from(&mut self, other: &Self)
        ensures
            Self::after_copy(*old(self), *final(self), *other, BorderLonghand::Style(Side::Left)),
    {
        self.copy_(other, BorderLonghand::Style(Side::Left));
    }

    /// The computed `border-left-style`; the stored keyword must be a known one.
    pub fn clone_border_left_style(&self) -> (r: BorderStyle)
        requires
            self.style_at(Side::Left) is Some,
        ensures
            Some(r) == self.style_at(Side::Left),
    {
        match self.clone_(BorderLonghand::Style(Side::Left)) {
            BorderValue::Style(_, k) => k,
            _ => {
                assert(false);
                BorderStyle::None_
            },
        }
    }

    /// Sets `border-left-color`: `currentColor` is kept as a flag in the style byte.
    pub fn set_border_left_color(&mut self, v: Color)
        ensures
            Self::after_set(*old(self), *final(self), BorderValue::Color(Side::Left, v)),
    {
        self.set_(BorderValue::Color(Side::Left, v));
    }

    /// Copies `border-left-color` (the `currentColor` flag and the color value) of another struct.
    pub fn copy_border_left_color_from(&mut self, other: &Self)
        ensures
            Self::after_copy(*old(self), *final(self), *other, BorderLonghand::Color(Side::Left)),
    {
        self.copy_(other, BorderLonghand::Color(Side::Left));
    }

    /// The computed `border-left-color`.
    pub fn clone_border_left_color(&self) -> (r: Color)
        ensures
            r == self.color_at(Side::Left),
    {
        match self.clone_(BorderLonghand::Color(Side::Left)) {
            BorderValue::Color(_, c) => c,
            _ => {
                assert(false);
                Color::CurrentColor
            },
        }
    }

    /// Sets `border-left-width`, rounded to whole device pixels.
    pub fn set_border_left_width(&mut self, v: Au)
        requires
            can_round_border(v.0 as int, old(self).gecko.twips_per_pixel as int),
        ensures
            Self::after_set(*old(self), *final(self), BorderValue::Width(Side::Left, v)),
    {
        self.set_(BorderValue::Width(Side::Left, v));
    }

    /// Copies `border-left-width` of another struct.
    pub fn copy_border_left_width_from(&mut self, other: &Self)
        ensures
            Self::after_copy(*old(self), *final(self), *other, BorderLonghand::Width(Side::Left)),
    {
        self.copy_(other, BorderLonghand::Width(Side::Left));
    }

    /// The computed `border-left-width`.
    pub fn clone_border_left_width(&self) -> (r: Au)
        ensures
            r.0 == self.gecko.computed_border@[Side::Left.spec_index()],
    {
        Au(self.gecko.computed_border[Side::Left.index()])
    }

    /// Whether the computed `border-left-width` is not zero.
    pub fn border_left_has_nonzero_width(&self) -> (r: bool)
        ensures
            r == (self.gecko.computed_border@[Side::Left.spec_index()] != 0),
    {
        self.border_has_nonzero_width(Side::Left)
    }

    /// Sets `border-top-left-radius`.
    pub fn set_border_top_left_radius(&mut self, v: BorderRadiusSize)
        ensures
            Self::after_set(*old(self), *final(self), BorderValue::Radius(Corner::TopLeft, v)),
    {
        self.set_(BorderValue::Radius(Corner::TopLeft, v));
    }

    /// Copies `border-top-left-radius` of another struct.
    pub fn copy_border_top_left_radius_from(&mut self, other: &Self)
        ensures
            Self::after_copy(*old(self), *final(self), *other, BorderLonghand::Radius(Corner::TopLeft)),
    {
        self.copy_(other, BorderLonghand::Radius(Corner::TopLeft));
    }

    /// The computed `border-top-left-radius`; both stored coordinates must hold lengths.
    pub fn clone_border_top_left_radius(&self) -> (r: BorderRadiusSize)
        requires
            self.radius_at(Corner::TopLeft) is Some,
        ensures
            Some(r) == self.radius_at(Corner::TopLeft),
    {
        match self.clone_(BorderLonghand::Radius(Corner::TopLeft)) {
            BorderValue::Radius(_, r) => r,
            _ => {
                assert(false);
                BorderRadiusSize { width: LengthOrPercentage::Length(Au(0)), height: LengthOrPercentage::Length(Au(0)) }
            },
        }
    }

    /// Sets `border-top-right-radius`.
    pub fn set_border_top_right_radius(&mut self, v: BorderRadiusSize)
        ensures
            Self::after_set(*old(self), *final(self), BorderValue::Radius(Corner::TopRight, v)),
    {
        self.set_(BorderValue::Radius(Corner::TopRight, v));
    }

    /// Copies `border-top-right-radius` of another struct.
    pub fn copy_border_top_right_radius_from(&mut self, other: &Self)
        ensures
            Self::after_copy(*old(self), *final(self), *other, BorderLonghand::Radius(Corner::TopRight)),
    {
        self.copy_(other, BorderLonghand::Radius(Corner::TopRight));
    }

    /// The computed `border-top-right-radius`; both stored coordinates must hold lengths.
    pub fn clone_border_top_right_radius(&self) -> (r: BorderRadiusSize)
        requires
            self.radius_at(Corner::TopRight) is Some,
        ensures
            Some(r) == self.radius_at(Corner::TopRight),
    {
        match self.clone_(BorderLonghand::Radius(Corner::TopRight)) {
            BorderValue::Radius(_, r) => r,
            _ => {
                assert(false);
                BorderRadiusSize { width: LengthOrPercentage::Length(Au(0)), height: LengthOrPercentage::Length(Au(0)) }
            },
        }
    }

    /// Sets `border-bottom-right-radius`.
    pub fn set_border_bottom_right_radius(&mut self, v: BorderRadiusSize)
        ensures
            Self::after_set(*old(self), *final(self), BorderValue::Radius(Corner::BottomRight, v)),
    {
        self.set_(BorderValue::Radius(Corner::BottomRight, v));
    }

    /// Copies `border-bottom-right-radius` of another struct.
    pub fn copy_border_bottom_right_radius_from(&mut self, other: &Self)
        ensures
            Self::after_copy(*old(self), *final(self), *other, BorderLonghand::Radius(Corner::BottomRight)),
    {
        self.copy_(other, BorderLonghand::Radius(Corner::BottomRight));
    }

    /// The computed `border-bottom-right-radius`; both stored coordinates must hold lengths.
    pub fn clone_border_bottom_right_radius(&self) -> (r: BorderRadiusSize)
        requires
            self.radius_at(Corner::BottomRight) is Some,
        ensures
            Some(r) == self.radius_at(Corner::BottomRight),
    {
        match self.clone_(BorderLonghand::Radius(Corner::BottomRight)) {
            BorderValue::Radius(_, r) => r,
            _ => {
                assert(false);
                BorderRadiusSize { width: LengthOrPercentage::Length(Au(0)), height: LengthOrPercentage::Length(Au(0)) }
            },
        }
    }

    /// Sets `border-bottom-left-radius`.
    pub fn set_border_bottom_left_radius(&mut self, v: BorderRadiusSize)
        ensures
            Self::after_set(*old(self), *final(self), BorderValue::Radius(Corner::BottomLeft, v)),
    {
        self.set_(BorderValue::Radius(Corner::BottomLeft, v));
    }

    /// Copies `border-bottom-left-radius` of another struct.
    pub fn copy_border_bottom_left_radius_from(&mut self, other: &Self)
        ensures
            Self::after_copy(*old(self), *final(self), *other, BorderLonghand::Radius(Corner::BottomLeft)),
    {
        self.copy_(other, BorderLonghand::Radius(Corner::BottomLeft));
    }

    /// The computed `border-bottom-left-radius`; both stored coordinates must hold lengths.
    pub fn clone_border_bottom_left_radius(&self) -> (r: BorderRadiusSize)
        requires
            self.radius_at(Corner::BottomLeft) is Some,
        ensures
            Some(r) == self.radius_at(Corner::BottomLeft),
    {
        match self.clone_(BorderLonghand::Radius(Corner::BottomLeft)) {
            BorderValue::Radius(_, r) => r,
            _ => {
                assert(false);
                BorderRadiusSize { width: LengthOrPercentage::Length(Au(0)), height: LengthOrPercentage::Length(Au(0)) }
            },
        }
    }
}

impl GeckoBorder {
    /// Whether two structs hold the same values.
    pub open spec fn same_as(self, other: Self) -> bool {
        self.gecko == other.gecko
    }
}

impl Clone for GeckoBorder {
    fn clone(&self) -> (r: Self)
        ensures
            r.same_as(*self),
    {
        GeckoBorder { gecko: self.gecko }
    }
}

/// The longhand that a value is a value of.
pub open spec fn border_longhand_of(v: BorderValue) -> BorderLonghand {
    match v {
        BorderValue::Style(side, _) => BorderLonghand::Style(side),
        BorderValue::Color(side, _) => BorderLonghand::Color(side),
        BorderValue::Width(side, _) => BorderLonghand::Width(side),
        BorderValue::Radius(corner, _) => BorderLonghand::Radius(corner),
    }
}

/// After a longhand of the border struct is set, reading it back gives the
/// value set (a width rounded to device pixels), and every other longhand
/// reads as before.
pub proof fn lemma_border_set_then_clone(old: GeckoBorder, new: GeckoBorder, v: BorderValue)
    requires
        old.can_set(v),
        GeckoBorder::after_set(old, new, v),
    ensures
        match v {
            BorderValue::Width(side, w) => new.value_of(BorderLonghand::Width(side)) == Some(BorderValue::Width(
                side, Au(spec_round_border(w.0 as int, old.gecko.twips_per_pixel as int) as i32))),
            _ => new.value_of(border_longhand_of(v)) == Some(v),
        },
        forall|id: BorderLonghand| id != border_longhand_of(v) ==> #[trigger] new.value_of(id) == old.value_of(id),
{
    match v {
        BorderValue::Style(side, k) => {
            let i = side.spec_index();
            lemma_style_keyword_set_get(old.gecko.border_style@[i], k);
            assert forall|id: BorderLonghand| id != border_longhand_of(v) implies #[trigger] new.value_of(id) == old.value_of(id) by {
                match id {
                    BorderLonghand::Color(s2) => {
                        if s2 == side {
                            lemma_style_keyword_set_get(old.gecko.border_style@[i], k);
                        }
                    },
                    _ => {},
                }
            }
        },
        BorderValue::Color(side, c) => {
            let i = side.spec_index();
            lemma_color_store_load(old.gecko.border_style@[i], c);
        },
        BorderValue::Width(side, w) => {},
        BorderValue::Radius(corner, r) => {
            lemma_lop_roundtrip(r.width);
            lemma_lop_roundtrip(r.height);
        },
    }
}

/// After a longhand is copied from another border struct, it reads as the
/// other's value. Other sides and corners read as before. Copying a style
/// copies the whole style byte, with the color flags that it holds.
pub proof fn lemma_border_copy_then_clone(old: GeckoBorder, new: GeckoBorder, other: GeckoBorder, id: BorderLonghand)
    requires
        GeckoBorder::after_copy(old, new, other, id),
    ensures
        new.value_of(id) == other.value_of(id),
        forall|id2: BorderLonghand| border_same_place(id, id2) || #[trigger] new.value_of(id2) == old.value_of(id2),
{
    match id {
        BorderLonghand::Color(side) => {
            let i = side.spec_index();
            lemma_color_copy(old.gecko.border_style@[i], other.gecko.border_style@[i], other.gecko.border_color@[i]);
            assert forall|id2: BorderLonghand| border_same_place(id, id2) || #[trigger] new.value_of(id2) == old.value_of(id2) by {
                lemma_color_copy(old.gecko.border_style@[i], other.gecko.border_style@[i], other.gecko.border_color@[i]);
            }
        },
        _ => {},
    }
}

/// Whether two longhands are stored in the same place: the same corner, or
/// the same side with the style byte shared between the style and the color.
pub open spec fn border_same_place(a: BorderLonghand, b: BorderLonghand) -> bool {
    match (a, b) {
        (BorderLonghand::Style(s1), BorderLonghand::Style(s2)) => s1 == s2,
        (BorderLonghand::Style(s1), BorderLonghand::Color(s2)) => s1 == s2,
        (BorderLonghand::Color(s1), BorderLonghand::Color(s2)) => s1 == s2,
        (BorderLonghand::Color(s1), BorderLonghand::Style(s2)) => s1 == s2,
        (BorderLonghand::Width(s1), BorderLonghand::Width(s2)) => s1 == s2,
        (BorderLonghand::Radius(c1), BorderLonghand::Radius(c2)) => c1 == c2,
        _ => false,
    }
}

/// After a border width is set, the stored width, which both the width's
/// clone and the non-zero-width query read, is the width rounded to device
/// pixels; with a positive device pixel size it is non-zero exactly when the
/// width set is.
pub proof fn lemma_border_width_set_then_clone(old: GeckoBorder, new: GeckoBorder, side: Side, w: Au)
    requires
        old.can_set(BorderValue::Width(side, w)),
        GeckoBorder::after_set(old, new, BorderValue::Width(side, w)),
    ensures
        new.gecko.computed_border@[side.spec_index()] == spec_round_border(w.0 as int, old.gecko.twips_per_pixel as int),
        old.gecko.twips_per_pixel > 0 ==> (new.gecko.computed_border@[side.spec_index()] != 0) == (w.0 != 0),
{
    lemma_round_border_in_range(w.0, old.gecko.twips_per_pixel);
}

} // verus!
