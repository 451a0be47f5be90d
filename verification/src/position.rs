//! The position style struct: Gecko's `nsStylePosition` and its accessors.
use vstd::prelude::*;
use std::sync::Arc;
use crate::coord::{StyleCoord, CoordDataValue, LengthOrPercentageOrAuto, spec_lopa_to_coord, spec_lopa_from_coord};
use crate::sides::Side;

verus! {

/// A computed `z-index`.
#[derive(Clone, Copy, Debug, PartialEq, Eq, Structural)]
pub enum ZIndex {
    Auto,
    Number(i32),
}

/// A computed `box-sizing` keyword.
#[derive(Clone, Copy, Debug, PartialEq, Eq, Structural)]
pub enum BoxSizing {
    ContentBox,
    BorderBox,
}

/// Gecko's `StyleBoxSizing`.
#[derive(Clone, Copy, Debug, PartialEq, Eq, Structural)]
pub enum StyleBoxSizing {
    Content,
    Padding,
    Border,
}

pub open spec fn spec_z_index_to_coord(v: ZIndex) -> CoordDataValue {
    match v {
        ZIndex::Auto => CoordDataValue::Auto,
        ZIndex::Number(n) => CoordDataValue::Integer(n),
    }
}

pub open spec fn spec_z_index_from_coord(v: CoordDataValue) -> ZIndex {
    match v {
        CoordDataValue::Auto => ZIndex::Auto,
        CoordDataValue::Integer(n) => ZIndex::Number(n),
        _ => ZIndex::Number(0),
    }
}

pub open spec fn spec_box_sizing_to_gecko(v: BoxSizing) -> StyleBoxSizing {
    match v {
        BoxSizing::ContentBox => StyleBoxSizing::Content,
        BoxSizing::BorderBox => StyleBoxSizing::Border,
    }
}

/// Storing a `z-index` and reading it back gives it back.
pub proof fn lemma_z_index_roundtrip(v: ZIndex)
    ensures
        spec_z_index_from_coord(spec_z_index_to_coord(v)) == v,
{
}

/// `z-index: auto` is stored as the auto unit and an integer `z-index` as
/// that integer.
pub proof fn lemma_z_index_units(n: i32)
    ensures
        spec_z_index_to_coord(ZIndex::Auto) == CoordDataValue::Auto,
        spec_z_index_to_coord(ZIndex::Number(n)) == CoordDataValue::Integer(n),
        spec_z_index_from_coord(CoordDataValue::Integer(n)) == ZIndex::Number(n),
        spec_z_index_from_coord(CoordDataValue::Auto) == ZIndex::Auto,
{
}

/// `content-box` is stored as Gecko's content sizing and `border-box` as its
/// border sizing.
pub proof fn lemma_box_sizing_table()
    ensures
        spec_box_sizing_to_gecko(BoxSizing::ContentBox) == StyleBoxSizing::Content,
        spec_box_sizing_to_gecko(BoxSizing::BorderBox) == StyleBoxSizing::Border,
{
}

/// Gecko's `nsStylePosition`, as far as the style system reads and writes it.
#[derive(Clone, Copy, Debug)]
pub struct NsStylePosition {
    /// Per side: the stored coordinate.
    pub offset: [StyleCoord; 4],
    pub z_index: StyleCoord,
    pub box_sizing: StyleBoxSizing,
}

/// The position style struct.
#[derive(Debug)]
pub struct GeckoPosition {
    pub gecko: NsStylePosition,
}

impl GeckoPosition {
    /// Whether the struct holds the initial values.
    pub open spec fn is_initial(self) -> bool {
        &&& forall|i: int| 0 <= i < 4 ==> self.gecko.offset@[i].value == CoordDataValue::Auto
        &&& self.gecko.z_index.value == CoordDataValue::Auto
        &&& self.gecko.box_sizing == StyleBoxSizing::Content
    }

    /// The initial position struct: `auto` offsets and `z-index`, and `content-box` sizing.
    pub fn initial() -> (r: Arc<GeckoPosition>)
        ensures
            r.is_initial(),
    {
        let z = StyleCoord { value: CoordDataValue::Auto };
        Arc::new(GeckoPosition {
            gecko: NsStylePosition {
                offset: [z, z, z, z],
                z_index: StyleCoord { value: CoordDataValue::Auto },
                box_sizing: StyleBoxSizing::Content,
            },
        })
    }

    /// The Gecko struct.
    pub fn get_gecko(&self) -> (r: &NsStylePosition)
        ensures
            *r == self.gecko,
    {
        &self.gecko
    }

    /// The value stored for a side, if its unit fits the property.
    pub open spec fn side_value(self, side: Side) -> Option<LengthOrPercentageOrAuto> {
        spec_lopa_from_coord(self.gecko.offset@[side.spec_index()].value)
    }

    /// Sets the property of one side.
    pub fn set_side(&mut self, side: Side, v: LengthOrPercentageOrAuto)
        ensures
            final(self).gecko.offset@ == old(self).gecko.offset@.update(side.spec_index(),
                StyleCoord { value: spec_lopa_to_coord(v) }),
            final(self).gecko.z_index == old(self).gecko.z_index,
            final(self).gecko.box_sizing == old(self).gecko.box_sizing,
    {
        let i = side.index();
        let mut c = self.gecko.offset[i];
        v.to_gecko_style_coord(&mut c);
        self.gecko.offset[i] = c;
    }

    /// Copies the property of one side from another struct.
    pub fn copy_side_from(&mut self, side: Side, other: &Self)
        ensures
            final(self).gecko.offset@ == old(self).gecko.offset@.update(side.spec_index(),
                other.gecko.offset@[side.spec_index()]),
            final(self).gecko.z_index == old(self).gecko.z_index,
            final(self).gecko.box_sizing == old(self).gecko.box_sizing,
    {
        let i = side.index();
        self.gecko.offset[i].copy_from(&other.gecko.offset[i]);
    }

    /// The computed property of one side; the stored unit must fit it.
    pub fn clone_side(&self, side: Side) -> (r: LengthOrPercentageOrAuto)
        requires
            self.side_value(side) is Some,
        ensures
            Some(r) == self.side_value(side),
    {
        match LengthOrPercentageOrAuto::from_gecko_style_coord(&self.gecko.offset[side.index()]) {
            Some(v) => v,
            None => {
                assert(false);
                LengthOrPercentageOrAuto::Length(crate::units::Au(0))
            },
        }
    }

    /// Sets `top`.
    pub fn set_top(&mut self, v: LengthOrPercentageOrAuto)
        ensures
            final(self).gecko.offset@ == old(self).gecko.offset@.update(Side::Top.spec_index(),
                StyleCoord { value: spec_lopa_to_coord(v) }),
            final(self).gecko.z_index == old(self).gecko.z_index,
            final(self).gecko.box_sizing == old(self).gecko.box_sizing,
    {
        self.set_side(Side::Top, v);
    }

    /// Copies `top` of another struct.
    pub fn copy_top_from(&mut self, other: &Self)
        ensures
            final(self).gecko.offset@ == old(self).gecko.offset@.update(Side::Top.spec_index(),
                other.gecko.offset@[Side::Top.spec_index()]),
            final(self).gecko.z_index == old(self).gecko.z_index,
            final(self).gecko.box_sizing == old(self).gecko.box_sizing,
    {
        self.copy_side_from(Side::Top, other);
    }

    /// The computed `top`; the stored unit must fit it.
    pub fn clone_top(&self) -> (r: LengthOrPercentageOrAuto)
        requires
            self.side_value(Side::Top) is Some,
        ensures
            Some(r) == self.side_value(Side::Top),
    {
        self.clone_side(Side::Top)
    }

    /// Sets `right`.
    pub fn set_right(&mut self, v: LengthOrPercentageOrAuto)
        ensures
            final(self).gecko.offset@ == old(self).gecko.offset@.update(Side::Right.spec_index(),
                StyleCoord { value: spec_lopa_to_coord(v) }),
            final(self).gecko.z_index == old(self).gecko.z_index,
            final(self).gecko.box_sizing == old(self).gecko.box_sizing,
    {
        self.set_side(Side::Right, v);
    }

    /// Copies `right` of another struct.
    pub fn copy_right_from(&mut self, other: &Self)
        ensures
            final(self).gecko.offset@ == old(self).gecko.offset@.update(Side::Right.spec_index(),
                other.gecko.offset@[Side::Right.spec_index()]),
            final(self).gecko.z_index == old(self).gecko.z_index,
            final(self).gecko.box_sizing == old(self).gecko.box_sizing,
    {
        self.copy_side_from(Side::Right, other);
    }

    /// The computed `right`; the stored unit must fit it.
    pub fn clone_right(&self) -> (r: LengthOrPercentageOrAuto)
        requires
            self.side_value(Side::Right) is Some,
        ensures
            Some(r) == self.side_value(Side::Right),
    {
        self.clone_side(Side::Right)
    }

    /// Sets `bottom`.
    pub fn set_bottom(&mut self, v: LengthOrPercentageOrAuto)
        ensures
            final(self).gecko.offset@ == old(self).gecko.offset@.update(Side::Bottom.spec_index(),
                StyleCoord { value: spec_lopa_to_coord(v) }),
            final(self).gecko.z_index == old(self).gecko.z_index,
            final(self).gecko.box_sizing == old(self).gecko.box_sizing,
    {
        self.set_side(Side::Bottom, v);
    }

    /// Copies `bottom` of another struct.
    pub fn copy_bottom_from(&mut self, other: &Self)
        ensures
            final(self).gecko.offset@ == old(self).gecko.offset@.update(Side::Bottom.spec_index(),
                other.gecko.offset@[Side::Bottom.spec_index()]),
            final(self).gecko.z_index == old(self).gecko.z_index,
            final(self).gecko.box_sizing == old(self).gecko.box_sizing,
    {
        self.copy_side_from(Side::Bottom, other);
    }

    /// The computed `bottom`; the stored unit must fit it.
    pub fn clone_bottom(&self) -> (r: LengthOrPercentageOrAuto)
        requires
            self.side_value(Side::Bottom) is Some,
        ensures
            Some(r) == self.side_value(Side::Bottom),
    {
        self.clone_side(Side::Bottom)
    }

    /// Sets `left`.
    pub fn set_left(&mut self, v: LengthOrPercentageOrAuto)
        ensures
            final(self).gecko.offset@ == old(self).gecko.offset@.update(Side::Left.spec_index(),
                StyleCoord { value: spec_lopa_to_coord(v) }),
            final(self).gecko.z_index == old(self).gecko.z_index,
            final(self).gecko.box_sizing == old(self).gecko.box_sizing,
    {
        self.set_side(Side::Left, v);
    }

    /// Copies `left` of another struct.
    pub fn copy_left_from(&mut self, other: &Self)
        ensures
            final(self).gecko.offset@ == old(self).gecko.offset@.update(Side::Left.spec_index(),
                other.gecko.offset@[Side::Left.spec_index()]),
            final(self).gecko.z_index == old(self).gecko.z_index,
            final(self).gecko.box_sizing == old(self).gecko.box_sizing,
    {
        self.copy_side_from(Side::Left, other);
    }

    /// The computed `left`; the stored unit must fit it.
    pub fn clone_left(&self) -> (r: LengthOrPercentageOrAuto)
        requires
            self.side_value(Side::Left) is Some,
        ensures
            Some(r) == self.side_value(Side::Left),
    {
        self.clone_side(Side::Left)
    }

    /// Sets `z-index`: `auto` or an integer.
    pub fn set_z_index(&mut self, v: ZIndex)
        ensures
            final(self).gecko == (NsStylePosition { z_index: StyleCoord { value: spec_z_index_to_coord(v) }, ..old(self).gecko }),
    {
        match v {
            ZIndex::Auto => self.gecko.z_index.set_value(CoordDataValue::Auto),
            ZIndex::Number(n) => self.gecko.z_index.set_value(CoordDataValue::Integer(n)),
        }
    }

    /// Copies `z-index` of another struct.
    pub fn copy_z_index_from(&mut self, other: &Self)
        ensures
            final(self).gecko == (NsStylePosition { z_index: other.gecko.z_index, ..old(self).gecko }),
    {
        self.gecko.z_index.copy_from(&other.gecko.z_index);
    }

    /// The computed `z-index`; a stored unit other than `auto` or an integer
    /// reads as zero.
    pub fn clone_z_index(&self) -> (r: ZIndex)
        ensures
            r == spec_z_index_from_coord(self.gecko.z_index.value),
    {
        match self.gecko.z_index.as_value() {
            CoordDataValue::Auto => ZIndex::Auto,
            CoordDataValue::Integer(n) => ZIndex::Number(n),
            _ => ZIndex::Number(0),
        }
    }

    /// Sets `box-sizing`.
    pub fn set_box_sizing(&mut self, v: BoxSizing)
        ensures
            final(self).gecko == (NsStylePosition { box_sizing: spec_box_sizing_to_gecko(v), ..old(self).gecko }),
    {
        self.gecko.box_sizing = match v {
            BoxSizing::ContentBox => StyleBoxSizing::Content,
            BoxSizing::BorderBox => StyleBoxSizing::Border,
        };
    }

    /// Copies `box-sizing` of another struct.
    pub fn copy_box_sizing_from(&mut self, other: &Self)
        ensures
            final(self).gecko == (NsStylePosition { box_sizing: other.gecko.box_sizing, ..old(self).gecko }),
    {
        self.gecko.box_sizing = other.gecko.box_sizing;
    }
}

impl GeckoPosition {
    /// Whether two structs hold the same values.
    pub open spec fn same_as(self, other: Self) -> bool {
        self.gecko == other.gecko
    }
}

impl Clone for GeckoPosition {
    fn clone(&self) -> (r: Self)
        ensures
            r.same_as(*self),
    {
        GeckoPosition { gecko: self.gecko }
    }
}

/// After the property of one side is set, that side reads back as the value
/// set and the other sides read as before.
pub proof fn lemma_position_set_then_clone(old: GeckoPosition, new: GeckoPosition, side: Side, v: LengthOrPercentageOrAuto)
    requires
        new.gecko.offset@ == old.gecko.offset@.update(side.spec_index(), StyleCoord { value: spec_lopa_to_coord(v) }),
    ensures
        new.side_value(side) == Some(v),
        forall|s: Side| s != side ==> #[trigger] new.side_value(s) == old.side_value(s),
{
    crate::coord::lemma_lopa_roundtrip(v);
    assert forall|s: Side| s != side implies #[trigger] new.side_value(s) == old.side_value(s) by {
        assert(s.spec_index() != side.spec_index());
    }
}

} // verus!
