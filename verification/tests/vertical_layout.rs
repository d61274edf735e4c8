use oxideui::layout::HorizontalAlignment;
use oxideui::layout::Layout;
use oxideui::layout::VerticalAlignment;
use oxideui::layout::VerticalLayout;

#[test]
fn layout() {
    let layout = VerticalLayout::default();
    let children: Vec<(i64, i64)> = vec![(10, 10), (10, 20)];

    let result = layout.arrange(&children, (100, 200, 400, 400).into());
    assert_eq!(
        result.as_slice(),
        &[(100, 200, 10, 10), (100, 210, 10, 20)]
    );
}

#[test]
fn layout_with_top_valign() {
    let layout = VerticalLayout::new(Some(VerticalAlignment::Top), None);
    let children: Vec<(i64, i64)> = vec![(20, 10), (10, 20)];

    let result = layout.arrange(&children, (100, 100, 800, 800).into());
    assert_eq!(
        result.as_slice(),
        &[(100, 100, 20, 10), (100, 110, 10, 20)]
    );
}

#[test]
fn layout_with_bot_valign() {
    let layout = VerticalLayout::new(Some(VerticalAlignment::Bottom), None);
    let children: Vec<(i64, i64)> = vec![(20, 10), (10, 20)];

    let result = layout.arrange(&children, (100, 100, 800, 800).into());
    assert_eq!(
        result.as_slice(),
        &[(100, 870, 20, 10), (100, 880, 10, 20)]
    );
}

#[test]
fn layout_with_left_halign() {
    let layout = VerticalLayout::new(None, Some(HorizontalAlignment::Left));
    let children: Vec<(i64, i64)> = vec![(20, 10), (10, 20)];

    let result = layout.arrange(&children, (100, 100, 800, 800).into());
    assert_eq!(
        result.as_slice(),
        &[(100, 100, 20, 10), (100, 110, 10, 20)]
    );
}

#[test]
fn layout_with_right_halign() {
    let layout = VerticalLayout::new(None, Some(HorizontalAlignment::Right));
    let children: Vec<(i64, i64)> = vec![(20, 10), (10, 20)];

    let result = layout.arrange(&children, (100, 100, 800, 800).into());
    assert_eq!(
        result.as_slice(),
        &[(880, 100, 20, 10), (890, 110, 10, 20)]
    );
}

#[test]
fn layout_with_center_halign() {
    let layout = VerticalLayout::new(None, Some(HorizontalAlignment::Center));
    let children: Vec<(i64, i64)> = vec![(20, 10), (10, 20)];

    let result = layout.arrange(&children, (100, 100, 800, 800).into());
    assert_eq!(
        result.as_slice(),
        &[(490, 100, 20, 10), (495, 110, 10, 20)]
    );
}

#[test]
fn layout_with_center_valign() {
    let layout = VerticalLayout::new(Some(VerticalAlignment::Center), None);
    let children: Vec<(i64, i64)> = vec![(20, 10), (10, 20)];

    let result = layout.arrange(&children, (100, 100, 800, 800).into());
    assert_eq!(
        result.as_slice(),
        &[(100, 495, 20, 10), (100, 490, 10, 20)]
    );
}

#[test]
fn layout_center_child_wider_than_container() {
    // Halving rounds toward zero: (5 - 10) / 2 gives -2, so the child
    // starts 2 units left of the container's left edge.
    let layout = VerticalLayout::new(None, Some(HorizontalAlignment::Center));
    let children: Vec<(i64, i64)> = vec![(10, 10)];

    let result = layout.arrange(&children, (0, 0, 5, 5).into());
    assert_eq!(result.as_slice(), &[(-2, 0, 10, 10)]);
}

#[test]
fn layout_empty_children() {
    let layout = VerticalLayout::new(Some(VerticalAlignment::Bottom), None);
    let children: Vec<(i64, i64)> = vec![];

    let result = layout.arrange(&children, (100, 100, 800, 800).into());
    assert!(result.is_empty());
}

#[test]
fn layout_degenerate_container() {
    let layout = VerticalLayout::default();
    let children: Vec<(i64, i64)> = vec![(10, 10), (10, 20)];

    let result = layout.arrange(&children, (0, 0, 0, 0).into());
    assert_eq!(result.as_slice(), &[(0, 0, 10, 10), (0, 10, 10, 20)]);
}

#[test]
fn layout_is_idempotent() {
    let layout = VerticalLayout::new(Some(VerticalAlignment::Bottom), Some(HorizontalAlignment::Center));
    let children: Vec<(i64, i64)> = vec![(20, 10), (10, 20), (30, 5)];
    let rect = oxideui::Rect::from((100, 100, 800, 800));

    let first = layout.arrange(&children, rect);
    let second = layout.arrange(&children, rect);
    assert_eq!(first, second);
}

#[test]
fn layout_preserves_order_and_sizes() {
    let layout = VerticalLayout::new(Some(VerticalAlignment::Bottom), Some(HorizontalAlignment::Right));
    let children: Vec<(i64, i64)> = vec![(7, 3), (21, 8), (2, 40), (13, 1)];

    let result = layout.arrange(&children, (50, 60, 300, 200).into());
    assert_eq!(result.len(), children.len());
    for (i, child) in children.iter().enumerate() {
        assert_eq!(result[i].2, child.0);
        assert_eq!(result[i].3, child.1);
    }
}
