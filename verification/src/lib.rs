//! A linear layout engine for a windowed UI toolkit: given a container
//! rectangle and the intrinsic sizes of an ordered list of children, it
//! computes each child's resolved position and size, stacking the children
//! vertically or placing them side by side horizontally, with optional
//! alignment along both axes.

pub mod layout;

use vstd::prelude::*;

verus! {

/// Largest magnitude allowed for a coordinate, a size component, or a
/// running total of sizes. Every quantity the layout algorithms compute is
/// a sum or difference of at most a few such values, so this bound keeps
/// all arithmetic comfortably inside `i64`.
pub const COORD_LIMIT: i64 = 0x1000_0000_0000;

/// A rectangle given by its top-left corner `pos` = (x, y) and its
/// `size` = (width, height), in integer device coordinates.
#[derive(Debug, Clone, Copy, PartialEq, Eq)]
pub struct Rect {
    pub pos: (i64, i64),
    pub size: (i64, i64),
}

impl Rect {
    /// The x coordinate of the left edge.
    pub open spec fn x(self) -> int {
        self.pos.0 as int
    }

    /// The y coordinate of the top edge.
    pub open spec fn y(self) -> int {
        self.pos.1 as int
    }

    /// The width.
    pub open spec fn w(self) -> int {
        self.size.0 as int
    }

    /// The height.
    pub open spec fn h(self) -> int {
        self.size.1 as int
    }

    /// All four components are within the coordinate bound.
    pub open spec fn bounded(self) -> bool {
        &&& -COORD_LIMIT <= self.pos.0 <= COORD_LIMIT
        &&& -COORD_LIMIT <= self.pos.1 <= COORD_LIMIT
        &&& -COORD_LIMIT <= self.size.0 <= COORD_LIMIT
        &&& -COORD_LIMIT <= self.size.1 <= COORD_LIMIT
    }
}

impl From<(i64, i64, i64, i64)> for Rect {
    fn from(t: (i64, i64, i64, i64)) -> (r: Self) {
        Rect { pos: (t.0, t.1), size: (t.2, t.3) }
    }
}

impl vstd::std_specs::convert::FromSpecImpl<(i64, i64, i64, i64)> for Rect {
    open spec fn obeys_from_spec() -> bool {
        true
    }

    open spec fn from_spec(t: (i64, i64, i64, i64)) -> Rect {
        Rect { pos: (t.0, t.1), size: (t.2, t.3) }
    }
}

/// Half of `d`, rounded toward zero.
pub open spec fn half_toward_zero(d: int) -> int {
    if d >= 0 {
        d / 2
    } else {
        -((-d) / 2)
    }
}

/// Half of `d`, rounded toward zero, on machine integers.
pub(crate) fn half_i64(d: i64) -> (r: i64)
    requires
        -COORD_LIMIT * 2 <= d <= COORD_LIMIT * 2,
    ensures
        r == half_toward_zero(d as int),
{
    if d >= 0 {
        d / 2
    } else {
        -((-d) / 2)
    }
}

} // verus!
