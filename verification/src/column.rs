//! The column style struct: Gecko's `nsStyleColumn` and `column-width`.
use vstd::prelude::*;
use std::sync::Arc;
use crate::units::Au;
use crate::coord::{StyleCoord, CoordDataValue};

verus! {

/// Gecko's `nsStyleColumn`, as far as the style system reads and writes it.
#[derive(Clone, Copy, Debug, PartialEq, Eq, Structural)]
pub struct NsStyleColumn {
    pub column_width: StyleCoord,
}

/// The column style struct.
#[derive(Debug)]
pub struct GeckoColumn {
    pub gecko: NsStyleColumn,
}

/// The coordinate stored for a `column-width`: a length, or `auto` for none.
pub open spec fn spec_column_width_to_coord(v: Option<Au>) -> CoordDataValue {
    match v {
        Some(au) => CoordDataValue::Coord(au.0),
        None => CoordDataValue::Auto,
    }
}

impl GeckoColumn {
    /// Whether the struct holds the initial values.
    pub open spec fn is_initial(self) -> bool {
        &&& self.gecko.column_width.value == CoordDataValue::Auto
    }

    /// The initial column struct: `column-width: auto`.
    pub fn initial() -> (r: Arc<GeckoColumn>)
        ensures
            r.is_initial(),
    {
        Arc::new(GeckoColumn { gecko: NsStyleColumn { column_width: StyleCoord { value: CoordDataValue::Auto } } })
    }

    /// The Gecko struct.
    pub fn get_gecko(&self) -> (r: &NsStyleColumn)
        ensures
            *r == self.gecko,
    {
        &self.gecko
    }

    /// Sets `column-width`: a length, or `auto` (none).
    pub fn set_column_width(&mut self, v: Option<Au>)
        ensures
            final(self).gecko.column_width.value == spec_column_width_to_coord(v),
    {
        match v {
            Some(au) => self.gecko.column_width.set_value(CoordDataValue::Coord(au.0)),
            None => self.gecko.column_width.set_value(CoordDataValue::Auto),
        }
    }

    /// Copies `column-width` of another struct.
    pub fn copy_column_width_from(&mut self, other: &Self)
        ensures
            final(self).gecko.column_width == other.gecko.column_width,
    {
        self.gecko.column_width.copy_from(&other.gecko.column_width);
    }
}

impl GeckoColumn {
    /// Whether two structs hold the same values.
    pub open spec fn same_as(self, other: Self) -> bool {
        self.gecko == other.gecko
    }
}

impl Clone for GeckoColumn {
    fn clone(&self) -> (r: Self)
        ensures
            r.same_as(*self),
    {
        GeckoColumn { gecko: self.gecko }
    }
}

/// A `column-width` length is stored as that many app units and `auto` in
/// the auto unit.
pub proof fn lemma_column_width_units(au: Au)
    ensures
        spec_column_width_to_coord(Some(au)) == CoordDataValue::Coord(au.0),
        spec_column_width_to_coord(None) == CoordDataValue::Auto,
{
}

} // verus!
