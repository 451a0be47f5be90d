//! Box sides and corners, and where Gecko stores each of them.
use vstd::prelude::*;
use crate::consts;

verus! {

/// A side of a box.
#[derive(Clone, Copy, Debug, PartialEq, Eq, Structural)]
pub enum Side {
    Top,
    Right,
    Bottom,
    Left,
}

/// A corner of a box.
#[derive(Clone, Copy, Debug, PartialEq, Eq, Structural)]
pub enum Corner {
    TopLeft,
    TopRight,
    BottomRight,
    BottomLeft,
}

impl Side {
    /// Index of the side in Gecko's side arrays.
    pub open spec fn spec_index(self) -> int {
        match self {
            Side::Top => 0,
            Side::Right => 1,
            Side::Bottom => 2,
            Side::Left => 3,
        }
    }

    /// Index of the side in Gecko's side arrays.
    pub fn index(self) -> (r: usize)
        ensures
            r == self.spec_index(),
            r < 4,
    {
        match self {
            Side::Top => consts::SIDE_TOP,
            Side::Right => consts::SIDE_RIGHT,
            Side::Bottom => consts::SIDE_BOTTOM,
            Side::Left => consts::SIDE_LEFT,
        }
    }
}

impl Corner {
    /// Index of the corner in clockwise order from the top left.
    pub open spec fn spec_index(self) -> int {
        match self {
            Corner::TopLeft => 0,
            Corner::TopRight => 1,
            Corner::BottomRight => 2,
            Corner::BottomLeft => 3,
        }
    }

    /// Index of the corner's horizontal radius in Gecko's corner arrays.
    pub open spec fn spec_x_index(self) -> int {
        2 * self.spec_index()
    }

    /// Index of the corner's vertical radius in Gecko's corner arrays.
    pub open spec fn spec_y_index(self) -> int {
        2 * self.spec_index() + 1
    }

    /// Index of the corner's horizontal radius in Gecko's corner arrays.
    pub fn x_index(self) -> (r: usize)
        ensures
            r == self.spec_x_index(),
            r < 8,
    {
        match self {
            Corner::TopLeft => consts::NS_CORNER_TOP_LEFT_X,
            Corner::TopRight => consts::NS_CORNER_TOP_RIGHT_X,
            Corner::BottomRight => consts::NS_CORNER_BOTTOM_RIGHT_X,
            Corner::BottomLeft => consts::NS_CORNER_BOTTOM_LEFT_X,
        }
    }

    /// Index of the corner's vertical radius in Gecko's corner arrays.
    pub fn y_index(self) -> (r: usize)
        ensures
            r == self.spec_y_index(),
            r < 8,
    {
        match self {
            Corner::TopLeft => consts::NS_CORNER_TOP_LEFT_Y,
            Corner::TopRight => consts::NS_CORNER_TOP_RIGHT_Y,
            Corner::BottomRight => consts::NS_CORNER_BOTTOM_RIGHT_Y,
            Corner::BottomLeft => consts::NS_CORNER_BOTTOM_LEFT_Y,
        }
    }
}

/// Gecko's corner constants put the two radii of corner `i` at `2 * i` and
/// `2 * i + 1`, and its side constants number the sides clockwise from the top.
pub proof fn static_assert()
    ensures
        consts::NS_CORNER_TOP_LEFT_X == 0 && consts::NS_CORNER_TOP_LEFT_Y == 1,
        consts::NS_CORNER_TOP_RIGHT_X == 2 && consts::NS_CORNER_TOP_RIGHT_Y == 3,
        consts::NS_CORNER_BOTTOM_RIGHT_X == 4 && consts::NS_CORNER_BOTTOM_RIGHT_Y == 5,
        consts::NS_CORNER_BOTTOM_LEFT_X == 6 && consts::NS_CORNER_BOTTOM_LEFT_Y == 7,
        consts::SIDE_TOP == 0 && consts::SIDE_RIGHT == 1 && consts::SIDE_BOTTOM == 2
            && consts::SIDE_LEFT == 3,
{
}

/// Each side is stored at Gecko's index for the side of the same name, and
/// each corner's radii at Gecko's indices for that corner.
pub proof fn lemma_side_corner_table()
    ensures
        Side::Top.spec_index() == consts::SIDE_TOP,
        Side::Right.spec_index() == consts::SIDE_RIGHT,
        Side::Bottom.spec_index() == consts::SIDE_BOTTOM,
        Side::Left.spec_index() == consts::SIDE_LEFT,
        Corner::TopLeft.spec_x_index() == consts::NS_CORNER_TOP_LEFT_X,
        Corner::TopLeft.spec_y_index() == consts::NS_CORNER_TOP_LEFT_Y,
        Corner::TopRight.spec_x_index() == consts::NS_CORNER_TOP_RIGHT_X,
        Corner::TopRight.spec_y_index() == consts::NS_CORNER_TOP_RIGHT_Y,
        Corner::BottomRight.spec_x_index() == consts::NS_CORNER_BOTTOM_RIGHT_X,
        Corner::BottomRight.spec_y_index() == consts::NS_CORNER_BOTTOM_RIGHT_Y,
        Corner::BottomLeft.spec_x_index() == consts::NS_CORNER_BOTTOM_LEFT_X,
        Corner::BottomLeft.spec_y_index() == consts::NS_CORNER_BOTTOM_LEFT_Y,
{
}

} // verus!
