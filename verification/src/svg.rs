//! The SVG style struct: Gecko's `nsStyleSVGReset` and its colors.
use vstd::prelude::*;
use std::sync::Arc;
use crate::color::{Color, convert_rgba_to_nscolor};
use crate::style_bits::spec_color_value;

verus! {

/// Gecko's `nsStyleSVGReset`, as far as the style system reads and writes it.
#[derive(Clone, Copy, Debug, PartialEq, Eq, Structural)]
pub struct NsStyleSVGReset {
    pub flood_color: u32,
    pub lighting_color: u32,
    pub stop_color: u32,
}

/// The SVG style struct.
#[derive(Debug)]
pub struct GeckoSVG {
    pub gecko: NsStyleSVGReset,
}

/// The `nscolor` stored for a color in a field without a `currentColor`
/// flag: `currentColor` cannot be stored and is stored as 0.
fn color_value(v: Color) -> (r: u32)
    ensures
        r == spec_color_value(v),
{
    match v {
        Color::CurrentColor => 0,
        Color::Rgba(rgba) => convert_rgba_to_nscolor(&rgba),
    }
}

impl GeckoSVG {
    /// Whether the struct holds the initial values.
    pub open spec fn is_initial(self) -> bool {
        &&& self.gecko.flood_color == 0xFF000000u32
        &&& self.gecko.lighting_color == 0xFFFFFFFFu32
        &&& self.gecko.stop_color == 0xFF000000u32
    }

    /// The initial SVG struct: black flood and stop colors, white lighting color.
    pub fn initial() -> (r: Arc<GeckoSVG>)
        ensures
            r.is_initial(),
    {
        Arc::new(GeckoSVG {
            gecko: NsStyleSVGReset { flood_color: 0xFF000000u32, lighting_color: 0xFFFFFFFFu32, stop_color: 0xFF000000u32 },
        })
    }

    /// The Gecko struct.
    pub fn get_gecko(&self) -> (r: &NsStyleSVGReset)
        ensures
            *r == self.gecko,
    {
        &self.gecko
    }

    /// Sets `flood-color`.
    pub fn set_flood_color(&mut self, v: Color)
        ensures
            final(self).gecko == (NsStyleSVGReset { flood_color: spec_color_value(v), ..old(self).gecko }),
    {
        self.gecko.flood_color = color_value(v);
    }

    /// Copies `flood-color` of another struct.
    pub fn copy_flood_color_from(&mut self, other: &Self)
        ensures
            final(self).gecko == (NsStyleSVGReset { flood_color: other.gecko.flood_color, ..old(self).gecko }),
    {
        self.gecko.flood_color = other.gecko.flood_color;
    }

    /// Sets `lighting-color`.
    pub fn set_lighting_color(&mut self, v: Color)
        ensures
            final(self).gecko == (NsStyleSVGReset { lighting_color: spec_color_value(v), ..old(self).gecko }),
    {
        self.gecko.lighting_color = color_value(v);
    }

    /// Copies `lighting-color` of another struct.
    pub fn copy_lighting_color_from(&mut self, other: &Self)
        ensures
            final(self).gecko == (NsStyleSVGReset { lighting_color: other.gecko.lighting_color, ..old(self).gecko }),
    {
        self.gecko.lighting_color = other.gecko.lighting_color;
    }

    /// Sets `stop-color`.
    pub fn set_stop_color(&mut self, v: Color)
        ensures
            final(self).gecko == (NsStyleSVGReset { stop_color: spec_color_value(v), ..old(self).gecko }),
    {
        self.gecko.stop_color = color_value(v);
    }

    /// Copies `stop-color` of another struct.
    pub fn copy_stop_color_from(&mut self, other: &Self)
        ensures
            final(self).gecko == (NsStyleSVGReset { stop_color: other.gecko.stop_color, ..old(self).gecko }),
    {
        self.gecko.stop_color = other.gecko.stop_color;
    }
}

impl GeckoSVG {
    /// Whether two structs hold the same values.
    pub open spec fn same_as(self, other: Self) -> bool {
        self.gecko == other.gecko
    }
}

impl Clone for GeckoSVG {
    fn clone(&self) -> (r: Self)
        ensures
            r.same_as(*self),
    {
        GeckoSVG { gecko: self.gecko }
    }
}

} // verus!
