use oxideui::layout::HorizontalAlignment;
use oxideui::layout::HorizontalLayout;
use oxideui::layout::Layout;
use oxideui::layout::VerticalAlignment;

#[test]
fn horizontal_layout() {
    let layout = HorizontalLayout::default();
    let children: Vec<(i64, i64)> = vec![(10, 10), (20, 10)];

    let result = layout.arrange(&children, (100, 100, 800, 800).into());
    assert_eq!(
        result.as_slice(),
        &[(100, 100, 10, 10), (110, 100, 20, 10)]
    );
}

#[test]
fn horizontal_layout_with_left_halign() {
    let layout = HorizontalLayout::new(Some(HorizontalAlignment::Left), None);
    let children: Vec<(i64, i64)> = vec![(10, 10), (20, 10)];

    let result = layout.arrange(&children, (100, 100, 800, 800).into());
    assert_eq!(
        result.as_slice(),
        &[(100, 100, 10, 10), (110, 100, 20, 10)]
    );
}

#[test]
fn horizontal_layout_with_right_halign() {
    let layout = HorizontalLayout::new(Some(HorizontalAlignment::Right), None);
    let children: Vec<(i64, i64)> = vec![(20, 30), (20, 10)];

    let result = layout.arrange(&children, (100, 100, 800, 800).into());
    assert_eq!(
        result.as_slice(),
        &[(860, 100, 20, 30), (880, 100, 20, 10)]
    );
}

#[test]
fn horizontal_layout_with_top_valign() {
    let layout = HorizontalLayout::new(None, Some(VerticalAlignment::Top));
    let children: Vec<(i64, i64)> = vec![(10, 20), (20, 10)];

    let result = layout.arrange(&children, (100, 100, 800, 800).into());
    assert_eq!(
        result.as_slice(),
        &[(100, 100, 10, 20), (110, 100, 20, 10)]
    );
}

#[test]
fn horizontal_layout_with_bot_valign() {
    let layout = HorizontalLayout::new(None, Some(VerticalAlignment::Bottom));
    let children: Vec<(i64, i64)> = vec![(10, 30), (20, 10)];

    let result = layout.arrange(&children, (100, 100, 800, 800).into());
    assert_eq!(
        result.as_slice(),
        &[(100, 870, 10, 30), (110, 890, 20, 10)]
    );
}

#[test]
fn horizontal_layout_with_center_halign() {
    let layout = HorizontalLayout::new(Some(HorizontalAlignment::Center), None);
    let children: Vec<(i64, i64)> = vec![(10, 10), (20, 10)];

    let result = layout.arrange(&children, (100, 100, 800, 800).into());
    assert_eq!(
        result.as_slice(),
        &[(495, 100, 10, 10), (490, 100, 20, 10)]
    );
}

#[test]
fn horizontal_layout_with_center_valign() {
    let layout = HorizontalLayout::new(None, Some(VerticalAlignment::Center));
    let children: Vec<(i64, i64)> = vec![(10, 20), (20, 10)];

    let result = layout.arrange(&children, (100, 100, 800, 800).into());
    assert_eq!(
        result.as_slice(),
        &[(100, 490, 10, 20), (110, 495, 20, 10)]
    );
}

#[test]
fn horizontal_layout_empty_children() {
    let layout = HorizontalLayout::new(Some(HorizontalAlignment::Right), None);
    let children: Vec<(i64, i64)> = vec![];

    let result = layout.arrange(&children, (100, 100, 800, 800).into());
    assert!(result.is_empty());
}

#[test]
fn horizontal_layout_is_idempotent() {
    let layout = HorizontalLayout::new(Some(HorizontalAlignment::Right), Some(VerticalAlignment::Center));
    let children: Vec<(i64, i64)> = vec![(20, 10), (10, 20), (30, 5)];
    let rect = oxideui::Rect::from((100, 100, 800, 800));

    let first = layout.arrange(&children, rect);
    let second = layout.arrange(&children, rect);
    assert_eq!(first, second);
}

#[test]
fn horizontal_layout_preserves_order_and_sizes() {
    let layout = HorizontalLayout::new(Some(HorizontalAlignment::Right), Some(VerticalAlignment::Bottom));
    let children: Vec<(i64, i64)> = vec![(7, 3), (21, 8), (2, 40), (13, 1)];

    let result = layout.arrange(&children, (50, 60, 300, 200).into());
    assert_eq!(result.len(), children.len());
    for (i, child) in children.iter().enumerate() {
        assert_eq!(result[i].2, child.0);
        assert_eq!(result[i].3, child.1);
    }
}

#[test]
fn rect_from_tuple() {
    let rect = oxideui::Rect::from((1, 2, 3, 4));
    assert_eq!(rect.pos, (1, 2));
    assert_eq!(rect.size, (3, 4));
}
