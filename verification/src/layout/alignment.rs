//! Alignment along each axis: two independent enumerations, one per axis.
//! A layout holds each as an `Option`: `None` means no alignment constraint
//! on that axis, so children flow at the natural accumulated offset.

use vstd::prelude::*;

verus! {

/// Placement of a child along the horizontal axis.
#[derive(Debug, Clone, Copy, PartialEq, Eq, Structural)]
pub enum HorizontalAlignment {
    Left,
    Right,
    Center,
}

/// Placement of a child along the vertical axis.
#[derive(Debug, Clone, Copy, PartialEq, Eq, Structural)]
pub enum VerticalAlignment {
    Top,
    Bottom,
    Center,
}

} // verus!
