//! The outline style struct: Gecko's `nsStyleOutline` and its accessors.
use vstd::prelude::*;
use std::sync::Arc;
use crate::units::{Au, round_border_to_device_pixels, spec_round_border, can_round_border, lemma_round_border_in_range};
use crate::color::Color;
use crate::coord::{StyleCoord, CoordDataValue, BorderRadiusSize, spec_lop_to_coord};
use crate::keywords::{BorderStyle, spec_border_style_to_gecko};
use crate::sides::Corner;
use crate::style_bits::{spec_with_keyword, spec_border_style_of, spec_bits_after_color,
    spec_color_value, spec_color_of, spec_bits_after_color_copy, with_keyword, keyword_bits,
    store_color, copy_color_flag, load_color};
use crate::consts;

verus! {

/// Gecko's `nsStyleOutline`, as far as the style system reads and writes it.
#[derive(Clone, Copy, Debug)]
pub struct NsStyleOutline {
    /// The style keyword and the color flags.
    pub outline_style: u8,
    /// The outline color as an `nscolor`.
    pub outline_color: u32,
    /// The computed outline width in app units.
    pub actual_outline_width: i32,
    /// App units per device pixel.
    pub twips_per_pixel: i32,
    /// Per corner: horizontal and vertical radius.
    pub outline_radius: [StyleCoord; 8],
}

/// The outline style struct.
#[derive(Debug)]
pub struct GeckoOutline {
    pub gecko: NsStyleOutline,
}

impl GeckoOutline {
    /// Whether the struct holds the initial values.
    pub open spec fn is_initial(self) -> bool {
        &&& self.gecko.outline_style == (consts::NS_STYLE_BORDER_STYLE_NONE | consts::BORDER_COLOR_FOREGROUND)
        &&& self.gecko.outline_color == 0
        &&& self.gecko.actual_outline_width == 0
        &&& self.gecko.twips_per_pixel == consts::AU_PER_DEVICE_PX_DEFAULT
        &&& forall|i: int| 0 <= i < 8 ==> self.gecko.outline_radius@[i].value == CoordDataValue::Coord(0)
    }

    /// The initial outline struct: no outline style, a `currentColor`
    /// outline, zero width and zero radii.
    pub fn initial() -> (r: Arc<GeckoOutline>)
        ensures
            r.is_initial(),
    {
        let z = StyleCoord { value: CoordDataValue::Coord(0) };
        Arc::new(GeckoOutline {
            gecko: NsStyleOutline {
                outline_style: consts::NS_STYLE_BORDER_STYLE_NONE | consts::BORDER_COLOR_FOREGROUND,
                outline_color: 0,
                actual_outline_width: 0,
                twips_per_pixel: consts::AU_PER_DEVICE_PX_DEFAULT,
                outline_radius: [z, z, z, z, z, z, z, z],
            },
        })
    }

    /// The Gecko struct.
    pub fn get_gecko(&self) -> (r: &NsStyleOutline)
        ensures
            *r == self.gecko,
    {
        &self.gecko
    }

    /// Sets `outline-style`, keeping the color flags.
    pub fn set_outline_style(&mut self, v: BorderStyle)
        ensures
            final(self).gecko.outline_style == spec_with_keyword(old(self).gecko.outline_style,
                spec_border_style_to_gecko(v)),
            final(self).gecko.outline_color == old(self).gecko.outline_color,
            final(self).gecko.actual_outline_width == old(self).gecko.actual_outline_width,
            final(self).gecko.twips_per_pixel == old(self).gecko.twips_per_pixel,
            final(self).gecko.outline_radius == old(self).gecko.outline_radius,
    {
        self.gecko.outline_style = with_keyword(self.gecko.outline_style, v.to_gecko());
    }

    /// Copies the whole `outline-style` byte (keyword and color flags) of another struct.
    pub fn copy_outline_style_from(&mut self, other: &Self)
        ensures
            final(self).gecko == (NsStyleOutline { outline_style: other.gecko.outline_style, ..old(self).gecko }),
    {
        self.gecko.outline_style = other.gecko.outline_style;
    }

    /// The computed `outline-style`; the stored keyword must be a known one.
    pub fn clone_outline_style(&self) -> (r: BorderStyle)
        requires
            spec_border_style_of(self.gecko.outline_style) is Some,
        ensures
            Some(r) == spec_border_style_of(self.gecko.outline_style),
    {
        match BorderStyle::from_gecko(keyword_bits(self.gecko.outline_style)) {
            Some(k) => k,
            None => {
                assert(false);
                BorderStyle::None_
            },
        }
    }

    /// Sets `outline-color`: `currentColor` is kept as a flag in the style byte.
    pub fn set_outline_color(&mut self, v: Color)
        ensures
            final(self).gecko == (NsStyleOutline {
                outline_style: spec_bits_after_color(old(self).gecko.outline_style, v),
                outline_color: spec_color_value(v),
                ..old(self).gecko
            }),
    {
        let (bits, value) = store_color(self.gecko.outline_style, v);
        self.gecko.outline_style = bits;
        self.gecko.outline_color = value;
    }

    /// Copies `outline-color` (the `currentColor` flag and the color value) of another struct.
    pub fn copy_outline_color_from(&mut self, other: &Self)
        ensures
            final(self).gecko == (NsStyleOutline {
                outline_style: spec_bits_after_color_copy(old(self).gecko.outline_style, other.gecko.outline_style),
                outline_color: other.gecko.outline_color,
                ..old(self).gecko
            }),
    {
        self.gecko.outline_style = copy_color_flag(self.gecko.outline_style, other.gecko.outline_style);
        self.gecko.outline_color = other.gecko.outline_color;
    }

    /// The computed `outline-color`.
    pub fn clone_outline_color(&self) -> (r: Color)
        ensures
            r == spec_color_of(self.gecko.outline_style, self.gecko.outline_color),
    {
        load_color(self.gecko.outline_style, self.gecko.outline_color)
    }

    /// Sets `outline-width`, rounded to whole device pixels.
    pub fn set_outline_width(&mut self, v: Au)
        requires
            can_round_border(v.0 as int, old(self).gecko.twips_per_pixel as int),
        ensures
            final(self).gecko == (NsStyleOutline {
                actual_outline_width: spec_round_border(v.0 as int, old(self).gecko.twips_per_pixel as int) as i32,
                ..old(self).gecko
            }),
    {
        let au_per_device_px = Au(self.gecko.twips_per_pixel);
        self.gecko.actual_outline_width = round_border_to_device_pixels(v, au_per_device_px).0;
    }

    /// Copies `outline-width` of another struct.
    pub fn copy_outline_width_from(&mut self, other: &Self)
        ensures
            final(self).gecko == (NsStyleOutline { actual_outline_width: other.gecko.actual_outline_width, ..old(self).gecko }),
    {
        self.gecko.actual_outline_width = other.gecko.actual_outline_width;
    }

    /// The computed `outline-width`.
    pub fn clone_outline_width(&self) -> (r: Au)
        ensures
            r.0 == self.gecko.actual_outline_width,
    {
        Au(self.gecko.actual_outline_width)
    }

    /// Sets the outline radius of a corner.
    pub fn set_outline_radius(&mut self, corner: Corner, v: BorderRadiusSize)
        ensures
            final(self).gecko.outline_radius@ == old(self).gecko.outline_radius@.update(
                corner.spec_x_index(), StyleCoord { value: spec_lop_to_coord(v.width) }).update(
                corner.spec_y_index(), StyleCoord { value: spec_lop_to_coord(v.height) }),
            final(self).gecko.outline_style == old(self).gecko.outline_style,
            final(self).gecko.outline_color == old(self).gecko.outline_color,
            final(self).gecko.actual_outline_width == old(self).gecko.actual_outline_width,
            final(self).gecko.twips_per_pixel == old(self).gecko.twips_per_pixel,
    {
        let x = corner.x_index();
        let y = corner.y_index();
        let mut cx = self.gecko.outline_radius[x];
        v.width.to_gecko_style_coord(&mut cx);
        self.gecko.outline_radius[x] = cx;
        let mut cy = self.gecko.outline_radius[y];
        v.height.to_gecko_style_coord(&mut cy);
        self.gecko.outline_radius[y] = cy;
    }

    /// Copies the outline radius of a corner from another struct.
    pub fn copy_outline_radius_from(&mut self, corner: Corner, other: &Self)
        ensures
            final(self).gecko.outline_radius@ == old(self).gecko.outline_radius@.update(
                corner.spec_x_index(), other.gecko.outline_radius@[corner.spec_x_index()]).update(
                corner.spec_y_index(), other.gecko.outline_radius@[corner.spec_y_index()]),
            final(self).gecko.outline_style == old(self).gecko.outline_style,
            final(self).gecko.outline_color == old(self).gecko.outline_color,
            final(self).gecko.actual_outline_width == old(self).gecko.actual_outline_width,
            final(self).gecko.twips_per_pixel == old(self).gecko.twips_per_pixel,
    {
        let x = corner.x_index();
        let y = corner.y_index();
        self.gecko.outline_radius[x].copy_from(&other.gecko.outline_radius[x]);
        self.gecko.outline_radius[y].copy_from(&other.gecko.outline_radius[y]);
    }

    /// Sets `-moz-outline-radius-topleft`.
    pub fn set__moz_outline_radius_topleft(&mut self, v: BorderRadiusSize)
        ensures
            final(self).gecko.outline_radius@ == old(self).gecko.outline_radius@.update(
                Corner::TopLeft.spec_x_index(), StyleCoord { value: spec_lop_to_coord(v.width) }).update(
                Corner::TopLeft.spec_y_index(), StyleCoord { value: spec_lop_to_coord(v.height) }),
            final(self).gecko.outline_style == old(self).gecko.outline_style,
            final(self).gecko.outline_color == old(self).gecko.outline_color,
            final(self).gecko.actual_outline_width == old(self).gecko.actual_outline_width,
            final(self).gecko.twips_per_pixel == old(self).gecko.twips_per_pixel,
    {
        self.set_outline_radius(Corner::TopLeft, v);
    }

    /// Copies `-moz-outline-radius-topleft` of another struct.
    pub fn copy__moz_outline_radius_topleft_from(&mut self, other: &Self)
        ensures
            final(self).gecko.outline_radius@ == old(self).gecko.outline_radius@.update(
                Corner::TopLeft.spec_x_index(), other.gecko.outline_radius@[Corner::TopLeft.spec_x_index()]).update(
                Corner::TopLeft.spec_y_index(), other.gecko.outline_radius@[Corner::TopLeft.spec_y_index()]),
            final(self).gecko.outline_style == old(self).gecko.outline_style,
            final(self).gecko.outline_color == old(self).gecko.outline_color,
            final(self).gecko.actual_outline_width == old(self).gecko.actual_outline_width,
            final(self).gecko.twips_per_pixel == old(self).gecko.twips_per_pixel,
    {
        self.copy_outline_radius_from(Corner::TopLeft, other);
    }

    /// Sets `-moz-outline-radius-topright`.
    pub fn set__moz_outline_radius_topright(&mut self, v: BorderRadiusSize)
        ensures
            final(self).gecko.outline_radius@ == old(self).gecko.outline_radius@.update(
                Corner::TopRight.spec_x_index(), StyleCoord { value: spec_lop_to_coord(v.width) }).update(
                Corner::TopRight.spec_y_index(), StyleCoord { value: spec_lop_to_coord(v.height) }),
            final(self).gecko.outline_style == old(self).gecko.outline_style,
            final(self).gecko.outline_color == old(self).gecko.outline_color,
            final(self).gecko.actual_outline_width == old(self).gecko.actual_outline_width,
            final(self).gecko.twips_per_pixel == old(self).gecko.twips_per_pixel,
    {
        self.set_outline_radius(Corner::TopRight, v);
    }

    /// Copies `-moz-outline-radius-topright` of another struct.
    pub fn copy__moz_outline_radius_topright_from(&mut self, other: &Self)
        ensures
            final(self).gecko.outline_radius@ == old(self).gecko.outline_radius@.update(
                Corner::TopRight.spec_x_index(), other.gecko.outline_radius@[Corner::TopRight.spec_x_index()]).update(
                Corner::TopRight.spec_y_index(), other.gecko.outline_radius@[Corner::TopRight.spec_y_index()]),
            final(self).gecko.outline_style == old(self).gecko.outline_style,
            final(self).gecko.outline_color == old(self).gecko.outline_color,
            final(self).gecko.actual_outline_width == old(self).gecko.actual_outline_width,
            final(self).gecko.twips_per_pixel == old(self).gecko.twips_per_pixel,
    {
        self.copy_outline_radius_from(Corner::TopRight, other);
    }

    /// Sets `-moz-outline-radius-bottomright`.
    pub fn set__moz_outline_radius_bottomright(&mut self, v: BorderRadiusSize)
        ensures
            final(self).gecko.outline_radius@ == old(self).gecko.outline_radius@.update(
                Corner::BottomRight.spec_x_index(), StyleCoord { value: spec_lop_to_coord(v.width) }).update(
                Corner::BottomRight.spec_y_index(), StyleCoord { value: spec_lop_to_coord(v.height) }),
            final(self).gecko.outline_style == old(self).gecko.outline_style,
            final(self).gecko.outline_color == old(self).gecko.outline_color,
            final(self).gecko.actual_outline_width == old(self).gecko.actual_outline_width,
            final(self).gecko.twips_per_pixel == old(self).gecko.twips_per_pixel,
    {
        self.set_outline_radius(Corner::BottomRight, v);
    }

    /// Copies `-moz-outline-radius-bottomright` of another struct.
    pub fn copy__moz_outline_radius_bottomright_from(&mut self, other: &Self)
        ensures
            final(self).gecko.outline_radius@ == old(self).gecko.outline_radius@.update(
                Corner::BottomRight.spec_x_index(), other.gecko.outline_radius@[Corner::BottomRight.spec_x_index()]).update(
                Corner::BottomRight.spec_y_index(), other.gecko.outline_radius@[Corner::BottomRight.spec_y_index()]),
            final(self).gecko.outline_style == old(self).gecko.outline_style,
            final(self).gecko.outline_color == old(self).gecko.outline_color,
            final(self).gecko.actual_outline_width == old(self).gecko.actual_outline_width,
            final(self).gecko.twips_per_pixel == old(self).gecko.twips_per_pixel,
    {
        self.copy_outline_radius_from(Corner::BottomRight, other);
    }

    /// Sets `-moz-outline-radius-bottomleft`.
    pub fn set__moz_outline_radius_bottomleft(&mut self, v: BorderRadiusSize)
        ensures
            final(self).gecko.outline_radius@ == old(self).gecko.outline_radius@.update(
                Corner::BottomLeft.spec_x_index(), StyleCoord { value: spec_lop_to_coord(v.width) }).update(
                Corner::BottomLeft.spec_y_index(), StyleCoord { value: spec_lop_to_coord(v.height) }),
            final(self).gecko.outline_style == old(self).gecko.outline_style,
            final(self).gecko.outline_color == old(self).gecko.outline_color,
            final(self).gecko.actual_outline_width == old(self).gecko.actual_outline_width,
            final(self).gecko.twips_per_pixel == old(self).gecko.twips_per_pixel,
    {
        self.set_outline_radius(Corner::BottomLeft, v);
    }

    /// Copies `-moz-outline-radius-bottomleft` of another struct.
    pub fn copy__moz_outline_radius_bottomleft_from(&mut self, other: &Self)
        ensures
            final(self).gecko.outline_radius@ == old(self).gecko.outline_radius@.update(
                Corner::BottomLeft.spec_x_index(), other.gecko.outline_radius@[Corner::BottomLeft.spec_x_index()]).update(
                Corner::BottomLeft.spec_y_index(), other.gecko.outline_radius@[Corner::BottomLeft.spec_y_index()]),
            final(self).gecko.outline_style == old(self).gecko.outline_style,
            final(self).gecko.outline_color == old(self).gecko.outline_color,
            final(self).gecko.actual_outline_width == old(self).gecko.actual_outline_width,
            final(self).gecko.twips_per_pixel == old(self).gecko.twips_per_pixel,
    {
        self.copy_outline_radius_from(Corner::BottomLeft, other);
    }

    /// Whether the computed outline width is not zero.
    pub fn outline_has_nonzero_width(&self) -> (r: bool)
        ensures
            r == (self.gecko.actual_outline_width != 0),
    {
        self.gecko.actual_outline_width != 0
    }
}

impl GeckoOutline {
    /// Whether two structs hold the same values.
    pub open spec fn same_as(self, other: Self) -> bool {
        self.gecko == other.gecko
    }
}

impl Clone for GeckoOutline {
    fn clone(&self) -> (r: Self)
        ensures
            r.same_as(*self),
    {
        GeckoOutline { gecko: self.gecko }
    }
}

/// After the outline width is set, the stored width, which both the width's
/// clone and `outline_has_nonzero_width` read, is the width rounded to
/// device pixels; with a positive device pixel size it is non-zero exactly
/// when the width set is.
pub proof fn lemma_outline_width_set_then_clone(old: GeckoOutline, new: GeckoOutline, v: Au)
    requires
        can_round_border(v.0 as int, old.gecko.twips_per_pixel as int),
        new.gecko == (NsStyleOutline {
            actual_outline_width: spec_round_border(v.0 as int, old.gecko.twips_per_pixel as int) as i32,
            ..old.gecko
        }),
    ensures
        new.gecko.actual_outline_width == spec_round_border(v.0 as int, old.gecko.twips_per_pixel as int),
        old.gecko.twips_per_pixel > 0 ==> (new.gecko.actual_outline_width != 0) == (v.0 != 0),
{
    lemma_round_border_in_range(v.0, old.gecko.twips_per_pixel);
}

} // verus!
