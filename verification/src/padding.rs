//! The padding style struct: Gecko's `nsStylePadding` and its accessors.
use vstd::prelude::*;
use std::sync::Arc;
use crate::coord::{StyleCoord, CoordDataValue, LengthOrPercentage, spec_lop_to_coord, spec_lop_from_coord};
use crate::sides::Side;

verus! {

/// Gecko's `nsStylePadding`, as far as the style system reads and writes it.
#[derive(Clone, Copy, Debug)]
pub struct NsStylePadding {
    /// Per side: the stored coordinate.
    pub padding: [StyleCoord; 4],
}

/// The padding style struct.
#[derive(Debug)]
pub struct GeckoPadding {
    pub gecko: NsStylePadding,
}

impl GeckoPadding {
    /// Whether the struct holds the initial values.
    pub open spec fn is_initial(self) -> bool {
        &&& forall|i: int| 0 <= i < 4 ==> self.gecko.padding@[i].value == CoordDataValue::Coord(0)
    }

    /// The initial padding struct: a zero padding on each side.
    pub fn initial() -> (r: Arc<GeckoPadding>)
        ensures
            r.is_initial(),
    {
        let z = StyleCoord { value: CoordDataValue::Coord(0) };
        Arc::new(GeckoPadding { gecko: NsStylePadding { padding: [z, z, z, z] } })
    }

    /// The Gecko struct.
    pub fn get_gecko(&self) -> (r: &NsStylePadding)
        ensures
            *r == self.gecko,
    {
        &self.gecko
    }

    /// The value stored for a side, if its unit fits the property.
    pub open spec fn side_value(self, side: Side) -> Option<LengthOrPercentage> {
        spec_lop_from_coord(self.gecko.padding@[side.spec_index()].value)
    }

    /// Sets the property of one side.
    pub fn set_side(&mut self, side: Side, v: LengthOrPercentage)
        ensures
            final(self).gecko.padding@ == old(self).gecko.padding@.update(side.spec_index(),
                StyleCoord { value: spec_lop_to_coord(v) }),
    {
        let i = side.index();
        let mut c = self.gecko.padding[i];
        v.to_gecko_style_coord(&mut c);
        self.gecko.padding[i] = c;
    }

    /// Copies the property of one side from another struct.
    pub fn copy_side_from(&mut self, side: Side, other: &Self)
        ensures
            final(self).gecko.padding@ == old(self).gecko.padding@.update(side.spec_index(),
                other.gecko.padding@[side.spec_index()]),
    {
        let i = side.index();
        self.gecko.padding[i].copy_from(&other.gecko.padding[i]);
    }

    /// The computed property of one side; the stored unit must fit it.
    pub fn clone_side(&self, side: Side) -> (r: LengthOrPercentage)
        requires
            self.side_value(side) is Some,
        ensures
            Some(r) == self.side_value(side),
    {
        match LengthOrPercentage::from_gecko_style_coord(&self.gecko.padding[side.index()]) {
            Some(v) => v,
            None => {
                assert(false);
                LengthOrPercentage::Length(crate::units::Au(0))
            },
        }
    }

    /// Sets `padding-top`.
    pub fn set_padding_top(&mut self, v: LengthOrPercentage)
        ensures
            final(self).gecko.padding@ == old(self).gecko.padding@.update(Side::Top.spec_index(),
                StyleCoord { value: spec_lop_to_coord(v) }),
    {
        self.set_side(Side::Top, v);
    }

    /// Copies `padding-top` of another struct.
    pub fn copy_padding_top_from(&mut self, other: &Self)
        ensures
            final(self).gecko.padding@ == old(self).gecko.padding@.update(Side::Top.spec_index(),
                other.gecko.padding@[Side::Top.spec_index()]),
    {
        self.copy_side_from(Side::Top, other);
    }

    /// The computed `padding-top`; the stored unit must fit it.
    pub fn clone_padding_top(&self) -> (r: LengthOrPercentage)
        requires
            self.side_value(Side::Top) is Some,
        ensures
            Some(r) == self.side_value(Side::Top),
    {
        self.clone_side(Side::Top)
    }

    /// Sets `padding-right`.
    pub fn set_padding_right(&mut self, v: LengthOrPercentage)
        ensures
            final(self).gecko.padding@ == old(self).gecko.padding@.update(Side::Right.spec_index(),
                StyleCoord { value: spec_lop_to_coord(v) }),
    {
        self.set_side(Side::Right, v);
    }

    /// Copies `padding-right` of another struct.
    pub fn copy_padding_right_from(&mut self, other: &Self)
        ensures
            final(self).gecko.padding@ == old(self).gecko.padding@.update(Side::Right.spec_index(),
                other.gecko.padding@[Side::Right.spec_index()]),
    {
        self.copy_side_from(Side::Right, other);
    }

    /// The computed `padding-right`; the stored unit must fit it.
    pub fn clone_padding_right(&self) -> (r: LengthOrPercentage)
        requires
            self.side_value(Side::Right) is Some,
        ensures
            Some(r) == self.side_value(Side::Right),
    {
        self.clone_side(Side::Right)
    }

    /// Sets `padding-bottom`.
    pub fn set_padding_bottom(&mut self, v: LengthOrPercentage)
        ensures
            final(self).gecko.padding@ == old(self).gecko.padding@.update(Side::Bottom.spec_index(),
                StyleCoord { value: spec_lop_to_coord(v) }),
    {
        self.set_side(Side::Bottom, v);
    }

    /// Copies `padding-bottom` of another struct.
    pub fn copy_padding_bottom_from(&mut self, other: &Self)
        ensures
            final(self).gecko.padding@ == old(self).gecko.padding@.update(Side::Bottom.spec_index(),
                other.gecko.padding@[Side::Bottom.spec_index()]),
    {
        self.copy_side_from(Side::Bottom, other);
    }

    /// The computed `padding-bottom`; the stored unit must fit it.
    pub fn clone_padding_bottom(&self) -> (r: LengthOrPercentage)
        requires
            self.side_value(Side::Bottom) is Some,
        ensures
            Some(r) == self.side_value(Side::Bottom),
    {
        self.clone_side(Side::Bottom)
    }

    /// Sets `padding-left`.
    pub fn set_padding_left(&mut self, v: LengthOrPercentage)
        ensures
            final(self).gecko.padding@ == old(self).gecko.padding@.update(Side::Left.spec_index(),
                StyleCoord { value: spec_lop_to_coord(v) }),
    {
        self.set_side(Side::Left, v);
    }

    /// Copies `padding-left` of another struct.
    pub fn copy_padding_left_from(&mut self, other: &Self)
        ensures
            final(self).gecko.padding@ == old(self).gecko.padding@.update(Side::Left.spec_index(),
                other.gecko.padding@[Side::Left.spec_index()]),
    {
        self.copy_side_from(Side::Left, other);
    }

    /// The computed `padding-left`; the stored unit must fit it.
    pub fn clone_padding_left(&self) -> (r: LengthOrPercentage)
        requires
            self.side_value(Side::Left) is Some,
        ensures
            Some(r) == self.side_value(Side::Left),
    {
        self.clone_side(Side::Left)
    }
}

impl GeckoPadding {
    /// Whether two structs hold the same values.
    pub open spec fn same_as(self, other: Self) -> bool {
        self.gecko == other.gecko
    }
}

impl Clone for GeckoPadding {
    fn clone(&self) -> (r: Self)
        ensures
            r.same_as(*self),
    {
        GeckoPadding { gecko: self.gecko }
    }
}

/// After the property of one side is set, that side reads back as the value
/// set and the other sides read as before.
pub proof fn lemma_padding_set_then_clone(old: GeckoPadding, new: GeckoPadding, side: Side, v: LengthOrPercentage)
    requires
        new.gecko.padding@ == old.gecko.padding@.update(side.spec_index(), StyleCoord { value: spec_lop_to_coord(v) }),
    ensures
        new.side_value(side) == Some(v),
        forall|s: Side| s != side ==> #[trigger] new.side_value(s) == old.side_value(s),
{
    crate::coord::lemma_lop_roundtrip(v);
    assert forall|s: Side| s != side implies #[trigger] new.side_value(s) == old.side_value(s) by {
        assert(s.spec_index() != side.spec_index());
    }
}

} // verus!
