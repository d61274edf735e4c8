//! The layout manager: the arrangement capability and its implementations.

pub mod alignment;
pub mod linear_layout;

pub use alignment::HorizontalAlignment;
pub use alignment::VerticalAlignment;
pub use linear_layout::HorizontalLayout;
pub use linear_layout::VerticalLayout;

use vstd::prelude::*;
use crate::Rect;

verus! {

/// The arrangement capability: place children with the given intrinsic
/// sizes inside a container rectangle.
pub trait Layout {
    /// The inputs on which the arrangement arithmetic stays within machine
    /// integers.
    spec fn arrange_ok(&self, sizes: Seq<(i64, i64)>, layout_rect: Rect) -> bool;

    /// The geometry this layout resolves: one `(x, y, width, height)` tuple
    /// per child, in child order.
    spec fn spec_arrange(&self, sizes: Seq<(i64, i64)>, layout_rect: Rect) -> Seq<
        (i64, i64, i64, i64),
    >;

    /// Arrange the children in the container.
    /// Returns a vector of tuples, each tuple contains the position and size
    /// of the child.
    fn arrange(&self, children: &Vec<(i64, i64)>, layout_rect: Rect) -> (result: Vec<
        (i64, i64, i64, i64),
    >)
        requires
            self.arrange_ok(children@, layout_rect),
        ensures
            result@ == self.spec_arrange(children@, layout_rect),
    ;
}

} // verus!
