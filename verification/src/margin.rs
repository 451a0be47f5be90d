//! The margin style struct: Gecko's `nsStyleMargin` and its accessors.
use vstd::prelude::*;
use std::sync::Arc;
use crate::coord::{StyleCoord, CoordDataValue, LengthOrPercentageOrAuto, spec_lopa_to_coord, spec_lopa_from_coord};
use crate::sides::Side;

verus! {

/// Gecko's `nsStyleMargin`, as far as the style system reads and writes it.
#[derive(Clone, Copy, Debug)]
pub struct NsStyleMargin {
    /// Per side: the stored coordinate.
    pub margin: [StyleCoord; 4],
}

/// The margin style struct.
#[derive(Debug)]
pub struct GeckoMargin {
    pub gecko: NsStyleMargin,
}

impl GeckoMargin {
    /// Whether the struct holds the initial values.
    pub open spec fn is_initial(self) -> bool {
        &&& forall|i: int| 0 <= i < 4 ==> self.gecko.margin@[i].value == CoordDataValue::Coord(0)
    }

    /// The initial margin struct: a zero margin on each side.
    pub fn initial() -> (r: Arc<GeckoMargin>)
        ensures
            r.is_initial(),
    {
        let z = StyleCoord { value: CoordDataValue::Coord(0) };
        Arc::new(GeckoMargin { gecko: NsStyleMargin { margin: [z, z, z, z] } })
    }

    /// The Gecko struct.
    pub fn get_gecko(&self) -> (r: &NsStyleMargin)
        ensures
            *r == self.gecko,
    {
        &self.gecko
    }

    /// The value stored for a side, if its unit fits the property.
    pub open spec fn side_value(self, side: Side) -> Option<LengthOrPercentageOrAuto> {
        spec_lopa_from_coord(self.gecko.margin@[side.spec_index()].value)
    }

    /// Sets the property of one side.
    pub fn set_side(&mut self, side: Side, v: LengthOrPercentageOrAuto)
        ensures
            final(self).gecko.margin@ == old(self).gecko.margin@.update(side.spec_index(),
                StyleCoord { value: spec_lopa_to_coord(v) }),
    {
        let i = side.index();
        let mut c = self.gecko.margin[i];
        v.to_gecko_style_coord(&mut c);
        self.gecko.margin[i] = c;
    }

    /// Copies the property of one side from another struct.
    pub fn copy_side_from(&mut self, side: Side, other: &Self)
        ensures
            final(self).gecko.margin@ == old(self).gecko.margin@.update(side.spec_index(),
                other.gecko.margin@[side.spec_index()]),
    {
        let i = side.index();
        self.gecko.margin[i].copy_from(&other.gecko.margin[i]);
    }

    /// The computed property of one side; the stored unit must fit it.
    pub fn clone_side(&self, side: Side) -> (r: LengthOrPercentageOrAuto)
        requires
            self.side_value(side) is Some,
        ensures
            Some(r) == self.side_value(side),
    {
        match LengthOrPercentageOrAuto::from_gecko_style_coord(&self.gecko.margin[side.index()]) {
            Some(v) => v,
            None => {
                assert(false);
                LengthOrPercentageOrAuto::Length(crate::units::Au(0))
            },
        }
    }

    /// Sets `margin-top`.
    pub fn set_margin_top(&mut self, v: LengthOrPercentageOrAuto)
        ensures
            final(self).gecko.margin@ == old(self).gecko.margin@.update(Side::Top.spec_index(),
                StyleCoord { value: spec_lopa_to_coord(v) }),
    {
        self.set_side(Side::Top, v);
    }

    /// Copies `margin-top` of another struct.
    pub fn copy_margin_top_from(&mut self, other: &Self)
        ensures
            final(self).gecko.margin@ == old(self).gecko.margin@.update(Side::Top.spec_index(),
                other.gecko.margin@[Side::Top.spec_index()]),
    {
        self.copy_side_from(Side::Top, other);
    }

    /// The computed `margin-top`; the stored unit must fit it.
    pub fn clone_margin_top(&self) -> (r: LengthOrPercentageOrAuto)
        requires
            self.side_value(Side::Top) is Some,
        ensures
            Some(r) == self.side_value(Side::Top),
    {
        self.clone_side(Side::Top)
    }

    /// Sets `margin-right`.
    pub fn set_margin_right(&mut self, v: LengthOrPercentageOrAuto)
        ensures
            final(self).gecko.margin@ == old(self).gecko.margin@.update(Side::Right.spec_index(),
                StyleCoord { value: spec_lopa_to_coord(v) }),
    {
        self.set_side(Side::Right, v);
    }

    /// Copies `margin-right` of another struct.
    pub fn copy_margin_right_from(&mut self, other: &Self)
        ensures
            final(self).gecko.margin@ == old(self).gecko.margin@.update(Side::Right.spec_index(),
                other.gecko.margin@[Side::Right.spec_index()]),
    {
        self.copy_side_from(Side::Right, other);
    }

    /// The computed `margin-right`; the stored unit must fit it.
    pub fn clone_margin_right(&self) -> (r: LengthOrPercentageOrAuto)
        requires
            self.side_value(Side::Right) is Some,
        ensures
            Some(r) == self.side_value(Side::Right),
    {
        self.clone_side(Side::Right)
    }

    /// Sets `margin-bottom`.
    pub fn set_margin_bottom(&mut self, v: LengthOrPercentageOrAuto)
        ensures
            final(self).gecko.margin@ == old(self).gecko.margin@.update(Side::Bottom.spec_index(),
                StyleCoord { value: spec_lopa_to_coord(v) }),
    {
        self.set_side(Side::Bottom, v);
    }

    /// Copies `margin-bottom` of another struct.
    pub fn copy_margin_bottom_from(&mut self, other: &Self)
        ensures
            final(self).gecko.margin@ == old(self).gecko.margin@.update(Side::Bottom.spec_index(),
                other.gecko.margin@[Side::Bottom.spec_index()]),
    {
        self.copy_side_from(Side::Bottom, other);
    }

    /// The computed `margin-bottom`; the stored unit must fit it.
    pub fn clone_margin_bottom(&self) -> (r: LengthOrPercentageOrAuto)
        requires
            self.side_value(Side::Bottom) is Some,
        ensures
            Some(r) == self.side_value(Side::Bottom),
    {
        self.clone_side(Side::Bottom)
    }

    /// Sets `margin-left`.
    pub fn set_margin_left(&mut self, v: LengthOrPercentageOrAuto)
        ensures
            final(self).gecko.margin@ == old(self).gecko.margin@.update(Side::Left.spec_index(),
                StyleCoord { value: spec_lopa_to_coord(v) }),
    {
        self.set_side(Side::Left, v);
    }

    /// Copies `margin-left` of another struct.
    pub fn copy_margin_left_from(&mut self, other: &Self)
        ensures
            final(self).gecko.margin@ == old(self).gecko.margin@.update(Side::Left.spec_index(),
                other.gecko.margin@[Side::Left.spec_index()]),
    {
        self.copy_side_from(Side::Left, other);
    }

    /// The computed `margin-left`; the stored unit must fit it.
    pub fn clone_margin_left(&self) -> (r: LengthOrPercentageOrAuto)
        requires
            self.side_value(Side::Left) is Some,
        ensures
            Some(r) == self.side_value(Side::Left),
    {
        self.clone_side(Side::Left)
    }
}

impl GeckoMargin {
    /// Whether two structs hold the same values.
    pub open spec fn same_as(self, other: Self) -> bool {
        self.gecko == other.gecko
    }
}

impl Clone for GeckoMargin {
    fn clone(&self) -> (r: Self)
        ensures
            r.same_as(*self),
    {
        GeckoMargin { gecko: self.gecko }
    }
}

/// After the property of one side is set, that side reads back as the value
/// set and the other sides read as before.
pub proof fn lemma_margin_set_then_clone(old: GeckoMargin, new: GeckoMargin, side: Side, v: LengthOrPercentageOrAuto)
    requires
        new.gecko.margin@ == old.gecko.margin@.update(side.spec_index(), StyleCoord { value: spec_lopa_to_coord(v) }),
    ensures
        new.side_value(side) == Some(v),
        forall|s: Side| s != side ==> #[trigger] new.side_value(s) == old.side_value(s),
{
    crate::coord::lemma_lopa_roundtrip(v);
    assert forall|s: Side| s != side implies #[trigger] new.side_value(s) == old.side_value(s) by {
        assert(s.spec_index() != side.spec_index());
    }
}

} // verus!
