//! The color style struct: Gecko's `nsStyleColor` and the `color` property.
use vstd::prelude::*;
use std::sync::Arc;
use crate::color::{Rgba, spec_nscolor, spec_rgba_of, convert_rgba_to_nscolor, convert_nscolor_to_rgba};

verus! {

/// Gecko's `nsStyleColor`: the foreground color as an `nscolor`.
#[derive(Clone, Copy, Debug, PartialEq, Eq, Structural)]
pub struct NsStyleColor {
    pub color: u32,
}

/// The color style struct.
#[derive(Debug)]
pub struct GeckoColor {
    pub gecko: NsStyleColor,
}

impl GeckoColor {
    /// Whether the struct holds the initial values.
    pub open spec fn is_initial(self) -> bool {
        &&& self.gecko.color == 0xFF000000u32
    }

    /// The initial color struct: opaque black.
    pub fn initial() -> (r: Arc<GeckoColor>)
        ensures
            r.is_initial(),
    {
        Arc::new(GeckoColor { gecko: NsStyleColor { color: 0xFF000000u32 } })
    }

    /// The Gecko struct.
    pub fn get_gecko(&self) -> (r: &NsStyleColor)
        ensures
            *r == self.gecko,
    {
        &self.gecko
    }

    /// Sets `color`.
    pub fn set_color(&mut self, v: Rgba)
        ensures
            final(self).gecko.color == spec_nscolor(v),
    {
        let result = convert_rgba_to_nscolor(&v);
        self.gecko.color = result;
    }

    /// Copies `color` of another struct.
    pub fn copy_color_from(&mut self, other: &Self)
        ensures
            final(self).gecko.color == other.gecko.color,
    {
        self.gecko.color = other.gecko.color;
    }

    /// The computed `color`.
    pub fn clone_color(&self) -> (r: Rgba)
        ensures
            r == spec_rgba_of(self.gecko.color),
    {
        let color = self.gecko.color;
        convert_nscolor_to_rgba(color)
    }
}

impl GeckoColor {
    /// Whether two structs hold the same values.
    pub open spec fn same_as(self, other: Self) -> bool {
        self.gecko == other.gecko
    }
}

impl Clone for GeckoColor {
    fn clone(&self) -> (r: Self)
        ensures
            r.same_as(*self),
    {
        GeckoColor { gecko: self.gecko }
    }
}

} // verus!
