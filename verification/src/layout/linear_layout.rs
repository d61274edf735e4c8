//! Linear layouts: stack children vertically, or place them in a row
//! horizontally. Children keep their intrinsic sizes; the layout only
//! positions them. On the main axis children follow a running cursor; a
//! trailing alignment (`Bottom` for the stack, `Right` for the row) adds a
//! correction pass that shifts the whole run flush with the container's
//! trailing edge.

use vstd::prelude::*;
use crate::half_i64;
use crate::half_toward_zero;
use crate::Rect;
use crate::COORD_LIMIT;
use super::alignment::HorizontalAlignment;
use super::alignment::VerticalAlignment;
use super::Layout;

verus! {

/// The sum of the heights of `sizes`.
pub open spec fn total_height(sizes: Seq<(i64, i64)>) -> int
    decreases sizes.len(),
{
    if sizes.len() == 0 {
        0
    } else {
        total_height(sizes.drop_last()) + sizes.last().1
    }
}

/// The sum of the widths of `sizes`.
pub open spec fn total_width(sizes: Seq<(i64, i64)>) -> int
    decreases sizes.len(),
{
    if sizes.len() == 0 {
        0
    } else {
        total_width(sizes.drop_last()) + sizes.last().0
    }
}

/// The sum of the heights of the children before index `i`: the natural
/// main-axis cursor of the vertical layout when it places child `i`.
pub open spec fn heights_before(sizes: Seq<(i64, i64)>, i: int) -> int {
    total_height(sizes.take(i))
}

/// The sum of the widths of the children before index `i`: the natural
/// main-axis cursor of the horizontal layout when it places child `i`.
pub open spec fn widths_before(sizes: Seq<(i64, i64)>, i: int) -> int {
    total_width(sizes.take(i))
}

/// Every size component is within the coordinate bound.
pub open spec fn sizes_bounded(sizes: Seq<(i64, i64)>) -> bool {
    forall|i: int|
        0 <= i < sizes.len() ==> {
            &&& -COORD_LIMIT <= (#[trigger] sizes[i]).0 <= COORD_LIMIT
            &&& -COORD_LIMIT <= sizes[i].1 <= COORD_LIMIT
        }
}

/// Every partial sum of heights is within the coordinate bound.
pub open spec fn height_totals_bounded(sizes: Seq<(i64, i64)>) -> bool {
    forall|i: int|
        0 <= i <= sizes.len() ==> -COORD_LIMIT <= #[trigger] total_height(sizes.take(i))
            <= COORD_LIMIT
}

/// Every partial sum of widths is within the coordinate bound.
pub open spec fn width_totals_bounded(sizes: Seq<(i64, i64)>) -> bool {
    forall|i: int|
        0 <= i <= sizes.len() ==> -COORD_LIMIT <= #[trigger] total_width(sizes.take(i))
            <= COORD_LIMIT
}

/// Appending the child at index `i` extends the height sum by that child's
/// height.
pub proof fn lemma_heights_before_step(sizes: Seq<(i64, i64)>, i: int)
    requires
        0 <= i < sizes.len(),
    ensures
        heights_before(sizes, i + 1) == heights_before(sizes, i) + sizes[i].1,
{
    assert(sizes.take(i + 1).drop_last() =~= sizes.take(i));
    assert(sizes.take(i + 1).last() == sizes[i]);
}

/// Appending the child at index `i` extends the width sum by that child's
/// width.
pub proof fn lemma_widths_before_step(sizes: Seq<(i64, i64)>, i: int)
    requires
        0 <= i < sizes.len(),
    ensures
        widths_before(sizes, i + 1) == widths_before(sizes, i) + sizes[i].0,
{
    assert(sizes.take(i + 1).drop_last() =~= sizes.take(i));
    assert(sizes.take(i + 1).last() == sizes[i]);
}

/// The cursor after the last child is the total over all children.
pub proof fn lemma_heights_before_all(sizes: Seq<(i64, i64)>)
    ensures
        heights_before(sizes, sizes.len() as int) == total_height(sizes),
{
    assert(sizes.take(sizes.len() as int) =~= sizes);
}

/// The cursor after the last child is the total over all children.
pub proof fn lemma_widths_before_all(sizes: Seq<(i64, i64)>)
    ensures
        widths_before(sizes, sizes.len() as int) == total_width(sizes),
{
    assert(sizes.take(sizes.len() as int) =~= sizes);
}

/// Cross-axis (horizontal) position of a child of the vertical layout.
pub open spec fn v_child_x(
    h_align: Option<HorizontalAlignment>,
    rect: Rect,
    size: (i64, i64),
) -> int {
    match h_align {
        Some(HorizontalAlignment::Right) => rect.x() + rect.w() - size.0,
        Some(HorizontalAlignment::Center) => rect.x() + half_toward_zero(rect.w() - size.0),
        _ => rect.x(),
    }
}

/// Main-axis (vertical) position of child `i` of the vertical layout after
/// the first pass: the natural top-down cursor, except that a centered
/// child is centered independently in the container's span.
pub open spec fn v_first_pass_y(
    v_align: Option<VerticalAlignment>,
    rect: Rect,
    sizes: Seq<(i64, i64)>,
    i: int,
) -> int {
    match v_align {
        Some(VerticalAlignment::Center) => rect.y() + half_toward_zero(rect.h() - sizes[i].1),
        _ => rect.y() + heights_before(sizes, i),
    }
}

/// Final main-axis position of child `i` of the vertical layout: bottom
/// alignment shifts the whole stack flush with the container's bottom edge.
pub open spec fn v_child_y(
    v_align: Option<VerticalAlignment>,
    rect: Rect,
    sizes: Seq<(i64, i64)>,
    i: int,
) -> int {
    if v_align == Some(VerticalAlignment::Bottom) {
        v_first_pass_y(v_align, rect, sizes, i) + (rect.h() - total_height(sizes))
    } else {
        v_first_pass_y(v_align, rect, sizes, i)
    }
}

/// The geometry the vertical layout resolves, one tuple per child.
pub open spec fn spec_vertical_arrange(
    v_align: Option<VerticalAlignment>,
    h_align: Option<HorizontalAlignment>,
    sizes: Seq<(i64, i64)>,
    rect: Rect,
) -> Seq<(i64, i64, i64, i64)> {
    Seq::new(
        sizes.len(),
        |i: int|
            (
                v_child_x(h_align, rect, sizes[i]) as i64,
                v_child_y(v_align, rect, sizes, i) as i64,
                sizes[i].0,
                sizes[i].1,
            ),
    )
}

/// Stacks children top to bottom, with optional alignment on each axis.
#[derive(Clone)]
pub struct VerticalLayout {
    pub v_align: Option<VerticalAlignment>,
    pub h_align: Option<HorizontalAlignment>,
}

impl VerticalLayout {
    pub fn new(v_align: Option<VerticalAlignment>, h_align: Option<HorizontalAlignment>) -> (r:
        Self)
        ensures
            r.v_align == v_align,
            r.h_align == h_align,
    {
        Self { v_align, h_align }
    }
}

impl Default for VerticalLayout {
    fn default() -> (r: Self)
        ensures
            r.v_align is None,
            r.h_align is None,
    {
        Self { v_align: None, h_align: None }
    }
}

impl Layout for VerticalLayout {
    open spec fn arrange_ok(&self, sizes: Seq<(i64, i64)>, layout_rect: Rect) -> bool {
        &&& layout_rect.bounded()
        &&& sizes_bounded(sizes)
        &&& height_totals_bounded(sizes)
    }

    open spec fn spec_arrange(&self, sizes: Seq<(i64, i64)>, layout_rect: Rect) -> Seq<
        (i64, i64, i64, i64),
    > {
        spec_vertical_arrange(self.v_align, self.h_align, sizes, layout_rect)
    }

    fn arrange(&self, children: &Vec<(i64, i64)>, layout_rect: Rect) -> (result: Vec<
        (i64, i64, i64, i64),
    >) {
        let ghost sizes = children@;
        let mut result: Vec<(i64, i64, i64, i64)> = Vec::new();
        let mut y: i64 = 0;
        let mut idx: usize = 0;
        while idx < children.len()
            invariant
                idx <= sizes.len(),
                children@ == sizes,
                layout_rect.bounded(),
                sizes_bounded(sizes),
                height_totals_bounded(sizes),
                y == heights_before(sizes, idx as int),
                result@.len() == idx,
                forall|i: int|
                    0 <= i < idx as int ==> #[trigger] result@[i] == ((
                        v_child_x(self.h_align, layout_rect, sizes[i]) as i64,
                        v_first_pass_y(self.v_align, layout_rect, sizes, i) as i64,
                        sizes[i].0,
                        sizes[i].1,
                    )),
            decreases sizes.len() - idx,
        {
            let (width, height) = children[idx];
            let child_x: i64 = match self.h_align {
                Some(HorizontalAlignment::Left) => layout_rect.pos.0,
                Some(HorizontalAlignment::Right) => layout_rect.pos.0 + layout_rect.size.0 - width,
                Some(HorizontalAlignment::Center) => layout_rect.pos.0 + half_i64(
                    layout_rect.size.0 - width,
                ),
                None => layout_rect.pos.0,
            };
            let child_y: i64 = match self.v_align {
                Some(VerticalAlignment::Center) => layout_rect.pos.1 + half_i64(
                    layout_rect.size.1 - height,
                ),
                _ => layout_rect.pos.1 + y,
            };
            result.push((child_x, child_y, width, height));
            proof {
                lemma_heights_before_step(sizes, idx as int);
            }
            y = y + height;
            idx = idx + 1;
        }
        proof {
            lemma_heights_before_all(sizes);
        }
        if matches!(self.v_align, Some(VerticalAlignment::Bottom)) && children.len() != 0 {
            let last = result[result.len() - 1];
            let consumed = last.1 + last.3 - layout_rect.pos.1;
            let shift = layout_rect.pos.1 + layout_rect.size.1 - consumed - layout_rect.pos.1;
            proof {
                lemma_heights_before_step(sizes, sizes.len() - 1);
            }
            assert(consumed == total_height(sizes));
            assert(shift == layout_rect.h() - total_height(sizes));
            let mut j: usize = 0;
            while j < result.len()
                invariant
                    j <= sizes.len(),
                    result@.len() == sizes.len(),
                    layout_rect.bounded(),
                    sizes_bounded(sizes),
                    height_totals_bounded(sizes),
                    self.v_align == Some(VerticalAlignment::Bottom),
                    -COORD_LIMIT <= total_height(sizes) <= COORD_LIMIT,
                    shift == layout_rect.h() - total_height(sizes),
                    forall|i: int|
                        0 <= i < j as int ==> #[trigger] result@[i] == ((
                            v_child_x(self.h_align, layout_rect, sizes[i]) as i64,
                            v_child_y(self.v_align, layout_rect, sizes, i) as i64,
                            sizes[i].0,
                            sizes[i].1,
                        )),
                    forall|i: int|
                        j as int <= i < sizes.len() ==> #[trigger] result@[i] == ((
                            v_child_x(self.h_align, layout_rect, sizes[i]) as i64,
                            v_first_pass_y(self.v_align, layout_rect, sizes, i) as i64,
                            sizes[i].0,
                            sizes[i].1,
                        )),
                decreases sizes.len() - j,
            {
                let t = result[j];
                proof {
                    assert(-COORD_LIMIT <= total_height(sizes.take(j as int)) <= COORD_LIMIT);
                    assert(t.1 == v_first_pass_y(self.v_align, layout_rect, sizes, j as int));
                }
                result.set(j, (t.0, t.1 + shift, t.2, t.3));
                j = j + 1;
            }
            assert(result@ =~= spec_vertical_arrange(self.v_align, self.h_align, sizes, layout_rect));
        } else {
            assert(result@ =~= spec_vertical_arrange(self.v_align, self.h_align, sizes, layout_rect));
        }
        result
    }
}

/// Cross-axis (vertical) position of a child of the horizontal layout.
pub open spec fn h_child_y(
    v_align: Option<VerticalAlignment>,
    rect: Rect,
    size: (i64, i64),
) -> int {
    match v_align {
        Some(VerticalAlignment::Bottom) => rect.y() + rect.h() - size.1,
        Some(VerticalAlignment::Center) => rect.y() + half_toward_zero(rect.h() - size.1),
        _ => rect.y(),
    }
}

/// Main-axis (horizontal) position of child `i` of the horizontal layout
/// after the first pass: the natural left-to-right cursor, except that a
/// centered child is centered independently in the container's span.
pub open spec fn h_first_pass_x(
    h_align: Option<HorizontalAlignment>,
    rect: Rect,
    sizes: Seq<(i64, i64)>,
    i: int,
) -> int {
    match h_align {
        Some(HorizontalAlignment::Center) => rect.x() + half_toward_zero(rect.w() - sizes[i].0),
        _ => rect.x() + widths_before(sizes, i),
    }
}

/// Final main-axis position of child `i` of the horizontal layout: right
/// alignment shifts the whole row flush with the container's right edge.
pub open spec fn h_child_x(
    h_align: Option<HorizontalAlignment>,
    rect: Rect,
    sizes: Seq<(i64, i64)>,
    i: int,
) -> int {
    if h_align == Some(HorizontalAlignment::Right) {
        h_first_pass_x(h_align, rect, sizes, i) + (rect.w() - total_width(sizes))
    } else {
        h_first_pass_x(h_align, rect, sizes, i)
    }
}

/// The geometry the horizontal layout resolves, one tuple per child.
pub open spec fn spec_horizontal_arrange(
    h_align: Option<HorizontalAlignment>,
    v_align: Option<VerticalAlignment>,
    sizes: Seq<(i64, i64)>,
    rect: Rect,
) -> Seq<(i64, i64, i64, i64)> {
    Seq::new(
        sizes.len(),
        |i: int|
            (
                h_child_x(h_align, rect, sizes, i) as i64,
                h_child_y(v_align, rect, sizes[i]) as i64,
                sizes[i].0,
                sizes[i].1,
            ),
    )
}

/// Places children left to right, with optional alignment on each axis.
#[derive(Clone, Copy)]
pub struct HorizontalLayout {
    pub h_align: Option<HorizontalAlignment>,
    pub v_align: Option<VerticalAlignment>,
}

impl HorizontalLayout {
    pub fn new(h_align: Option<HorizontalAlignment>, v_align: Option<VerticalAlignment>) -> (r:
        Self)
        ensures
            r.h_align == h_align,
            r.v_align == v_align,
    {
        Self { h_align, v_align }
    }
}

impl Default for HorizontalLayout {
    fn default() -> (r: Self)
        ensures
            r.h_align is None,
            r.v_align is None,
    {
        Self { h_align: None, v_align: None }
    }
}

impl Layout for HorizontalLayout {
    open spec fn arrange_ok(&self, sizes: Seq<(i64, i64)>, layout_rect: Rect) -> bool {
        &&& layout_rect.bounded()
        &&& sizes_bounded(sizes)
        &&& width_totals_bounded(sizes)
    }

    open spec fn spec_arrange(&self, sizes: Seq<(i64, i64)>, layout_rect: Rect) -> Seq<
        (i64, i64, i64, i64),
    > {
        spec_horizontal_arrange(self.h_align, self.v_align, sizes, layout_rect)
    }

    fn arrange(&self, children: &Vec<(i64, i64)>, layout_rect: Rect) -> (result: Vec<
        (i64, i64, i64, i64),
    >) {
        let ghost sizes = children@;
        let mut result: Vec<(i64, i64, i64, i64)> = Vec::new();
        let mut x: i64 = 0;
        let mut idx: usize = 0;
        while idx < children.len()
            invariant
                idx <= sizes.len(),
                children@ == sizes,
                layout_rect.bounded(),
                sizes_bounded(sizes),
                width_totals_bounded(sizes),
                x == widths_before(sizes, idx as int),
                result@.len() == idx,
                forall|i: int|
                    0 <= i < idx as int ==> #[trigger] result@[i] == ((
                        h_first_pass_x(self.h_align, layout_rect, sizes, i) as i64,
                        h_child_y(self.v_align, layout_rect, sizes[i]) as i64,
                        sizes[i].0,
                        sizes[i].1,
                    )),
            decreases sizes.len() - idx,
        {
            let (width, height) = children[idx];
            let child_y: i64 = match self.v_align {
                Some(VerticalAlignment::Top) => layout_rect.pos.1,
                Some(VerticalAlignment::Bottom) => layout_rect.pos.1 + layout_rect.size.1 - height,
                Some(VerticalAlignment::Center) => layout_rect.pos.1 + half_i64(
                    layout_rect.size.1 - height,
                ),
                None => layout_rect.pos.1,
            };
            let child_x: i64 = match self.h_align {
                Some(HorizontalAlignment::Center) => layout_rect.pos.0 + half_i64(
                    layout_rect.size.0 - width,
                ),
                _ => layout_rect.pos.0 + x,
            };
            result.push((child_x, child_y, width, height));
            proof {
                lemma_widths_before_step(sizes, idx as int);
            }
            x = x + width;
            idx = idx + 1;
        }
        proof {
            lemma_widths_before_all(sizes);
        }
        if matches!(self.h_align, Some(HorizontalAlignment::Right)) && children.len() != 0 {
            let last = result[result.len() - 1];
            let consumed = last.0 + last.2 - layout_rect.pos.0;
            let shift = layout_rect.pos.0 + layout_rect.size.0 - consumed - layout_rect.pos.0;
            proof {
                lemma_widths_before_step(sizes, sizes.len() - 1);
            }
            assert(consumed == total_width(sizes));
            assert(shift == layout_rect.w() - total_width(sizes));
            let mut j: usize = 0;
            while j < result.len()
                invariant
                    j <= sizes.len(),
                    result@.len() == sizes.len(),
                    layout_rect.bounded(),
                    sizes_bounded(sizes),
                    width_totals_bounded(sizes),
                    self.h_align == Some(HorizontalAlignment::Right),
                    -COORD_LIMIT <= total_width(sizes) <= COORD_LIMIT,
                    shift == layout_rect.w() - total_width(sizes),
                    forall|i: int|
                        0 <= i < j as int ==> #[trigger] result@[i] == ((
                            h_child_x(self.h_align, layout_rect, sizes, i) as i64,
                            h_child_y(self.v_align, layout_rect, sizes[i]) as i64,
                            sizes[i].0,
                            sizes[i].1,
                        )),
                    forall|i: int|
                        j as int <= i < sizes.len() ==> #[trigger] result@[i] == ((
                            h_first_pass_x(self.h_align, layout_rect, sizes, i) as i64,
                            h_child_y(self.v_align, layout_rect, sizes[i]) as i64,
                            sizes[i].0,
                            sizes[i].1,
                        )),
                decreases sizes.len() - j,
            {
                let t = result[j];
                proof {
                    assert(-COORD_LIMIT <= total_width(sizes.take(j as int)) <= COORD_LIMIT);
                    assert(t.0 == h_first_pass_x(self.h_align, layout_rect, sizes, j as int));
                }
                result.set(j, (t.0 + shift, t.1, t.2, t.3));
                j = j + 1;
            }
            assert(result@ =~= spec_horizontal_arrange(self.h_align, self.v_align, sizes, layout_rect));
        } else {
            assert(result@ =~= spec_horizontal_arrange(self.h_align, self.v_align, sizes, layout_rect));
        }
        result
    }
}

/// Order preservation: an arrangement has exactly one entry per child, and
/// entry `i` carries the size of child `i`, so entry `i` is child `i`'s
/// resolved geometry.
pub proof fn lemma_vertical_order_preserved(
    v_align: Option<VerticalAlignment>,
    h_align: Option<HorizontalAlignment>,
    sizes: Seq<(i64, i64)>,
    rect: Rect,
)
    ensures
        spec_vertical_arrange(v_align, h_align, sizes, rect).len() == sizes.len(),
        forall|i: int|
            0 <= i < sizes.len() ==> {
                &&& (#[trigger] spec_vertical_arrange(v_align, h_align, sizes, rect)[i]).2
                    == sizes[i].0
                &&& spec_vertical_arrange(v_align, h_align, sizes, rect)[i].3 == sizes[i].1
            },
{
}

/// Order preservation: an arrangement has exactly one entry per child, and
/// entry `i` carries the size of child `i`, so entry `i` is child `i`'s
/// resolved geometry.
pub proof fn lemma_horizontal_order_preserved(
    h_align: Option<HorizontalAlignment>,
    v_align: Option<VerticalAlignment>,
    sizes: Seq<(i64, i64)>,
    rect: Rect,
)
    ensures
        spec_horizontal_arrange(h_align, v_align, sizes, rect).len() == sizes.len(),
        forall|i: int|
            0 <= i < sizes.len() ==> {
                &&& (#[trigger] spec_horizontal_arrange(h_align, v_align, sizes, rect)[i]).2
                    == sizes[i].0
                &&& spec_horizontal_arrange(h_align, v_align, sizes, rect)[i].3 == sizes[i].1
            },
{
}

/// Empty input: arranging no children in any rectangle yields the empty
/// sequence, for either layout and any alignment configuration.
pub proof fn lemma_arrange_empty(
    v_align: Option<VerticalAlignment>,
    h_align: Option<HorizontalAlignment>,
    rect: Rect,
)
    ensures
        spec_vertical_arrange(v_align, h_align, Seq::<(i64, i64)>::empty(), rect) == Seq::<
            (i64, i64, i64, i64),
        >::empty(),
        spec_horizontal_arrange(h_align, v_align, Seq::<(i64, i64)>::empty(), rect) == Seq::<
            (i64, i64, i64, i64),
        >::empty(),
{
    assert(spec_vertical_arrange(v_align, h_align, Seq::<(i64, i64)>::empty(), rect) =~= Seq::<
        (i64, i64, i64, i64),
    >::empty());
    assert(spec_horizontal_arrange(h_align, v_align, Seq::<(i64, i64)>::empty(), rect) =~= Seq::<
        (i64, i64, i64, i64),
    >::empty());
}

/// Idempotence: the resolved geometry is a pure function of the children's
/// sizes and the container, so two arrangements of identical inputs agree.
pub proof fn lemma_arrange_deterministic<L: Layout>(
    layout: &L,
    sizes: Seq<(i64, i64)>,
    rect: Rect,
    first: Seq<(i64, i64, i64, i64)>,
    second: Seq<(i64, i64, i64, i64)>,
)
    requires
        first == layout.spec_arrange(sizes, rect),
        second == layout.spec_arrange(sizes, rect),
    ensures
        first == second,
{
}

/// Bottom alignment leaves the stack flush: the bottom edge of the last
/// child of a bottom-aligned vertical arrangement is the bottom edge of the
/// container.
pub proof fn lemma_bottom_alignment_flush(
    h_align: Option<HorizontalAlignment>,
    sizes: Seq<(i64, i64)>,
    rect: Rect,
)
    requires
        sizes.len() > 0,
        rect.bounded(),
        sizes_bounded(sizes),
        height_totals_bounded(sizes),
    ensures
        ({
            let r = spec_vertical_arrange(Some(VerticalAlignment::Bottom), h_align, sizes, rect);
            r[sizes.len() - 1].1 + r[sizes.len() - 1].3 == rect.y() + rect.h()
        }),
{
    let n = sizes.len() as int;
    lemma_heights_before_step(sizes, n - 1);
    lemma_heights_before_all(sizes);
    assert(-COORD_LIMIT <= total_height(sizes.take(n - 1)) <= COORD_LIMIT);
    assert(-COORD_LIMIT <= total_height(sizes.take(n)) <= COORD_LIMIT);
    assert(v_child_y(Some(VerticalAlignment::Bottom), rect, sizes, n - 1) == rect.y()
        + heights_before(sizes, n - 1) + (rect.h() - total_height(sizes)));
}

/// Right alignment leaves the row flush: the right edge of the last child
/// of a right-aligned horizontal arrangement is the right edge of the
/// container.
pub proof fn lemma_right_alignment_flush(
    v_align: Option<VerticalAlignment>,
    sizes: Seq<(i64, i64)>,
    rect: Rect,
)
    requires
        sizes.len() > 0,
        rect.bounded(),
        sizes_bounded(sizes),
        width_totals_bounded(sizes),
    ensures
        ({
            let r = spec_horizontal_arrange(Some(HorizontalAlignment::Right), v_align, sizes, rect);
            r[sizes.len() - 1].0 + r[sizes.len() - 1].2 == rect.x() + rect.w()
        }),
{
    let n = sizes.len() as int;
    lemma_widths_before_step(sizes, n - 1);
    lemma_widths_before_all(sizes);
    assert(-COORD_LIMIT <= total_width(sizes.take(n - 1)) <= COORD_LIMIT);
    assert(-COORD_LIMIT <= total_width(sizes.take(n)) <= COORD_LIMIT);
    assert(h_child_x(Some(HorizontalAlignment::Right), rect, sizes, n - 1) == rect.x()
        + widths_before(sizes, n - 1) + (rect.w() - total_width(sizes)));
}

} // verus!
