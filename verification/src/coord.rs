//! Gecko's `nsStyleCoord` (a unit and a value) and the computed length values
//! that are stored in it.
use vstd::prelude::*;
use crate::units::Au;

verus! {

/// The bit pattern of a 32-bit CSS float. Floats are only carried through
/// unchanged, never computed on, so their bits stand for them.
#[derive(Clone, Copy, Debug, PartialEq, Eq, Structural)]
pub struct CssFloat(pub u32);

/// Gecko's calc() value: a length, a percentage, and whether the percentage
/// part is present.
#[derive(Clone, Copy, Debug, PartialEq, Eq, Structural)]
pub struct CalcValue {
    pub length: i32,
    pub percent: CssFloat,
    pub has_percent: bool,
}

/// The unit and value of an `nsStyleCoord`.
#[derive(Clone, Copy, Debug, PartialEq, Eq, Structural)]
pub enum CoordDataValue {
    Null,
    Normal,
    Auto,
    NoneValue,
    Percent(CssFloat),
    Factor(CssFloat),
    Radian(CssFloat),
    Coord(i32),
    Integer(i32),
    Enumerated(u32),
    Calc(CalcValue),
}

/// Gecko's `nsStyleCoord`.
#[derive(Clone, Copy, Debug, PartialEq, Eq, Structural)]
pub struct StyleCoord {
    pub value: CoordDataValue,
}

impl StyleCoord {
    /// A coordinate with no value, as Gecko constructs it.
    pub fn null() -> (r: StyleCoord)
        ensures
            r.value == CoordDataValue::Null,
    {
        StyleCoord { value: CoordDataValue::Null }
    }

    /// Stores a unit and value.
    pub fn set_value(&mut self, v: CoordDataValue)
        ensures
            final(self).value == v,
    {
        self.value = v;
    }

    /// The stored unit and value.
    pub fn as_value(&self) -> (r: CoordDataValue)
        ensures
            r == self.value,
    {
        self.value
    }

    /// Copies the unit and value of another coordinate.
    pub fn copy_from(&mut self, other: &StyleCoord)
        ensures
            *final(self) == *other,
    {
        self.value = other.value;
    }
}

/// A computed `calc()` length: a length plus an optional percentage.
#[derive(Clone, Copy, Debug, PartialEq, Eq, Structural)]
pub struct CalcLengthOrPercentage {
    pub length: Au,
    pub percentage: Option<CssFloat>,
}

/// A computed `<length-percentage>`.
#[derive(Clone, Copy, Debug, PartialEq, Eq, Structural)]
pub enum LengthOrPercentage {
    Length(Au),
    Percentage(CssFloat),
    Calc(CalcLengthOrPercentage),
}

/// A computed `<length-percentage> | auto`.
#[derive(Clone, Copy, Debug, PartialEq, Eq, Structural)]
pub enum LengthOrPercentageOrAuto {
    Length(Au),
    Percentage(CssFloat),
    Calc(CalcLengthOrPercentage),
    Auto,
}

/// A computed `<length-percentage> | none`.
#[derive(Clone, Copy, Debug, PartialEq, Eq, Structural)]
pub enum LengthOrPercentageOrNone {
    Length(Au),
    Percentage(CssFloat),
    Calc(CalcLengthOrPercentage),
    NoneValue,
}

/// A computed `border-*-radius` value: the horizontal and vertical radius.
#[derive(Clone, Copy, Debug, PartialEq, Eq, Structural)]
pub struct BorderRadiusSize {
    pub width: LengthOrPercentage,
    pub height: LengthOrPercentage,
}

pub open spec fn spec_calc_to_gecko(c: CalcLengthOrPercentage) -> CalcValue {
    CalcValue {
        length: c.length.0,
        percent: match c.percentage {
            Some(p) => p,
            None => CssFloat(0),
        },
        has_percent: c.percentage is Some,
    }
}

pub open spec fn spec_calc_from_gecko(c: CalcValue) -> CalcLengthOrPercentage {
    CalcLengthOrPercentage {
        length: Au(c.length),
        percentage: if c.has_percent { Some(c.percent) } else { None },
    }
}

/// Converts a computed calc() value into Gecko's calc value.
pub fn calc_to_gecko(c: CalcLengthOrPercentage) -> (r: CalcValue)
    ensures
        r == spec_calc_to_gecko(c),
{
    CalcValue {
        length: c.length.0,
        percent: match c.percentage {
            Some(p) => p,
            None => CssFloat(0),
        },
        has_percent: c.percentage.is_some(),
    }
}

/// Converts Gecko's calc value into a computed calc() value.
pub fn calc_from_gecko(c: CalcValue) -> (r: CalcLengthOrPercentage)
    ensures
        r == spec_calc_from_gecko(c),
{
    CalcLengthOrPercentage {
        length: Au(c.length),
        percentage: if c.has_percent { Some(c.percent) } else { None },
    }
}

pub open spec fn spec_lop_to_coord(v: LengthOrPercentage) -> CoordDataValue {
    match v {
        LengthOrPercentage::Length(au) => CoordDataValue::Coord(au.0),
        LengthOrPercentage::Percentage(p) => CoordDataValue::Percent(p),
        LengthOrPercentage::Calc(c) => CoordDataValue::Calc(spec_calc_to_gecko(c)),
    }
}

pub open spec fn spec_lop_from_coord(v: CoordDataValue) -> Option<LengthOrPercentage> {
    match v {
        CoordDataValue::Coord(c) => Some(LengthOrPercentage::Length(Au(c))),
        CoordDataValue::Percent(p) => Some(LengthOrPercentage::Percentage(p)),
        CoordDataValue::Calc(c) => Some(LengthOrPercentage::Calc(spec_calc_from_gecko(c))),
        _ => None,
    }
}

pub open spec fn spec_lopa_to_coord(v: LengthOrPercentageOrAuto) -> CoordDataValue {
    match v {
        LengthOrPercentageOrAuto::Length(au) => CoordDataValue::Coord(au.0),
        LengthOrPercentageOrAuto::Percentage(p) => CoordDataValue::Percent(p),
        LengthOrPercentageOrAuto::Calc(c) => CoordDataValue::Calc(spec_calc_to_gecko(c)),
        LengthOrPercentageOrAuto::Auto => CoordDataValue::Auto,
    }
}

pub open spec fn spec_lopa_from_coord(v: CoordDataValue) -> Option<LengthOrPercentageOrAuto> {
    match v {
        CoordDataValue::Coord(c) => Some(LengthOrPercentageOrAuto::Length(Au(c))),
        CoordDataValue::Percent(p) => Some(LengthOrPercentageOrAuto::Percentage(p)),
        CoordDataValue::Calc(c) => Some(LengthOrPercentageOrAuto::Calc(spec_calc_from_gecko(c))),
        CoordDataValue::Auto => Some(LengthOrPercentageOrAuto::Auto),
        _ => None,
    }
}

pub open spec fn spec_lopn_to_coord(v: LengthOrPercentageOrNone) -> CoordDataValue {
    match v {
        LengthOrPercentageOrNone::Length(au) => CoordDataValue::Coord(au.0),
        LengthOrPercentageOrNone::Percentage(p) => CoordDataValue::Percent(p),
        LengthOrPercentageOrNone::Calc(c) => CoordDataValue::Calc(spec_calc_to_gecko(c)),
        LengthOrPercentageOrNone::NoneValue => CoordDataValue::NoneValue,
    }
}

pub open spec fn spec_lopn_from_coord(v: CoordDataValue) -> Option<LengthOrPercentageOrNone> {
    match v {
        CoordDataValue::Coord(c) => Some(LengthOrPercentageOrNone::Length(Au(c))),
        CoordDataValue::Percent(p) => Some(LengthOrPercentageOrNone::Percentage(p)),
        CoordDataValue::Calc(c) => Some(LengthOrPercentageOrNone::Calc(spec_calc_from_gecko(c))),
        CoordDataValue::NoneValue => Some(LengthOrPercentageOrNone::NoneValue),
        _ => None,
    }
}

impl LengthOrPercentage {
    /// Stores this value into a Gecko coordinate.
    pub fn to_gecko_style_coord(&self, coord: &mut StyleCoord)
        ensures
            final(coord).value == spec_lop_to_coord(*self),
    {
        let v = match *self {
            LengthOrPercentage::Length(au) => CoordDataValue::Coord(au.0),
            LengthOrPercentage::Percentage(p) => CoordDataValue::Percent(p),
            LengthOrPercentage::Calc(c) => CoordDataValue::Calc(calc_to_gecko(c)),
        };
        coord.set_value(v);
    }

    /// Reads a value of this type from a Gecko coordinate, if its unit fits.
    pub fn from_gecko_style_coord(coord: &StyleCoord) -> (r: Option<LengthOrPercentage>)
        ensures
            r == spec_lop_from_coord(coord.value),
    {
        match coord.as_value() {
            CoordDataValue::Coord(c) => Some(LengthOrPercentage::Length(Au(c))),
            CoordDataValue::Percent(p) => Some(LengthOrPercentage::Percentage(p)),
            CoordDataValue::Calc(c) => Some(LengthOrPercentage::Calc(calc_from_gecko(c))),
            _ => None,
        }
    }
}

impl LengthOrPercentageOrAuto {
    /// Stores this value into a Gecko coordinate.
    pub fn to_gecko_style_coord(&self, coord: &mut StyleCoord)
        ensures
            final(coord).value == spec_lopa_to_coord(*self),
    {
        let v = match *self {
            LengthOrPercentageOrAuto::Length(au) => CoordDataValue::Coord(au.0),
            LengthOrPercentageOrAuto::Percentage(p) => CoordDataValue::Percent(p),
            LengthOrPercentageOrAuto::Calc(c) => CoordDataValue::Calc(calc_to_gecko(c)),
            LengthOrPercentageOrAuto::Auto => CoordDataValue::Auto,
        };
        coord.set_value(v);
    }

    /// Reads a value of this type from a Gecko coordinate, if its unit fits.
    pub fn from_gecko_style_coord(coord: &StyleCoord) -> (r: Option<LengthOrPercentageOrAuto>)
        ensures
            r == spec_lopa_from_coord(coord.value),
    {
        match coord.as_value() {
            CoordDataValue::Coord(c) => Some(LengthOrPercentageOrAuto::Length(Au(c))),
            CoordDataValue::Percent(p) => Some(LengthOrPercentageOrAuto::Percentage(p)),
            CoordDataValue::Calc(c) => Some(LengthOrPercentageOrAuto::Calc(calc_from_gecko(c))),
            CoordDataValue::Auto => Some(LengthOrPercentageOrAuto::Auto),
            _ => None,
        }
    }
}

impl LengthOrPercentageOrNone {
    /// Stores this value into a Gecko coordinate.
    pub fn to_gecko_style_coord(&self, coord: &mut StyleCoord)
        ensures
            final(coord).value == spec_lopn_to_coord(*self),
    {
        let v = match *self {
            LengthOrPercentageOrNone::Length(au) => CoordDataValue::Coord(au.0),
            LengthOrPercentageOrNone::Percentage(p) => CoordDataValue::Percent(p),
            LengthOrPercentageOrNone::Calc(c) => CoordDataValue::Calc(calc_to_gecko(c)),
            LengthOrPercentageOrNone::NoneValue => CoordDataValue::NoneValue,
        };
        coord.set_value(v);
    }

    /// Reads a value of this type from a Gecko coordinate, if its unit fits.
    pub fn from_gecko_style_coord(coord: &StyleCoord) -> (r: Option<LengthOrPercentageOrNone>)
        ensures
            r == spec_lopn_from_coord(coord.value),
    {
        match coord.as_value() {
            CoordDataValue::Coord(c) => Some(LengthOrPercentageOrNone::Length(Au(c))),
            CoordDataValue::Percent(p) => Some(LengthOrPercentageOrNone::Percentage(p)),
            CoordDataValue::Calc(c) => Some(LengthOrPercentageOrNone::Calc(calc_from_gecko(c))),
            CoordDataValue::NoneValue => Some(LengthOrPercentageOrNone::NoneValue),
            _ => None,
        }
    }
}

/// The coordinate stored for an optional `<length-percentage>`: none is
/// stored as the `none` unit.
pub open spec fn spec_opt_lop_to_coord(v: Option<LengthOrPercentage>) -> CoordDataValue {
    match v {
        Some(l) => spec_lop_to_coord(l),
        None => CoordDataValue::NoneValue,
    }
}

/// Stores an optional `<length-percentage>` into a Gecko coordinate.
pub fn opt_lop_to_gecko_style_coord(v: Option<LengthOrPercentage>, coord: &mut StyleCoord)
    ensures
        final(coord).value == spec_opt_lop_to_coord(v),
{
    match v {
        Some(l) => l.to_gecko_style_coord(coord),
        None => coord.set_value(CoordDataValue::NoneValue),
    }
}

/// A length is stored as that many app units, a percentage in the percent
/// unit, a calc() as Gecko's calc value, `auto` and `none` in their own
/// units, and a missing `<length-percentage>` as `none`.
pub proof fn lemma_coord_units(au: Au, p: CssFloat, c: CalcLengthOrPercentage)
    ensures
        spec_lop_to_coord(LengthOrPercentage::Length(au)) == CoordDataValue::Coord(au.0),
        spec_lop_to_coord(LengthOrPercentage::Percentage(p)) == CoordDataValue::Percent(p),
        spec_lop_to_coord(LengthOrPercentage::Calc(c)) == CoordDataValue::Calc(spec_calc_to_gecko(c)),
        spec_lopa_to_coord(LengthOrPercentageOrAuto::Length(au)) == CoordDataValue::Coord(au.0),
        spec_lopa_to_coord(LengthOrPercentageOrAuto::Percentage(p)) == CoordDataValue::Percent(p),
        spec_lopa_to_coord(LengthOrPercentageOrAuto::Auto) == CoordDataValue::Auto,
        spec_lopn_to_coord(LengthOrPercentageOrNone::Length(au)) == CoordDataValue::Coord(au.0),
        spec_lopn_to_coord(LengthOrPercentageOrNone::Percentage(p)) == CoordDataValue::Percent(p),
        spec_lopn_to_coord(LengthOrPercentageOrNone::NoneValue) == CoordDataValue::NoneValue,
        spec_opt_lop_to_coord(None) == CoordDataValue::NoneValue,
        spec_calc_to_gecko(c).length == c.length.0,
        spec_calc_to_gecko(c).has_percent == (c.percentage is Some),
        c.percentage matches Some(q) ==> spec_calc_to_gecko(c).percent == q,
{
}

/// A computed calc() value survives the round trip through Gecko's calc value.
pub proof fn lemma_calc_roundtrip(c: CalcLengthOrPercentage)
    ensures
        spec_calc_from_gecko(spec_calc_to_gecko(c)) == c,
{
}

/// Storing a `<length-percentage>` in a coordinate and reading it back gives it back.
pub proof fn lemma_lop_roundtrip(v: LengthOrPercentage)
    ensures
        spec_lop_from_coord(spec_lop_to_coord(v)) == Some(v),
{
}

/// Storing a `<length-percentage> | auto` and reading it back gives it back.
pub proof fn lemma_lopa_roundtrip(v: LengthOrPercentageOrAuto)
    ensures
        spec_lopa_from_coord(spec_lopa_to_coord(v)) == Some(v),
{
}

/// Storing a `<length-percentage> | none` and reading it back gives it back.
pub proof fn lemma_lopn_roundtrip(v: LengthOrPercentageOrNone)
    ensures
        spec_lopn_from_coord(spec_lopn_to_coord(v)) == Some(v),
{
}

} // verus!
