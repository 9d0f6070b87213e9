use widget_core::alignment::{anchor, Horizontal, Vertical};
use widget_core::geometry::{Point, Rectangle};

fn bounds() -> Rectangle {
    Rectangle { x: 10, y: 10, width: 100, height: 20 }
}

#[test]
fn alignment_anchoring_center_top() {
    let p = anchor(&bounds(), Horizontal::Center, Vertical::Top);
    assert_eq!(p, Point { x: 60, y: 10 });
}

#[test]
fn alignment_anchoring_right_bottom() {
    let p = anchor(&bounds(), Horizontal::Right, Vertical::Bottom);
    assert_eq!(p, Point { x: 110, y: 30 });
}

#[test]
fn alignment_anchoring_left_center() {
    let p = anchor(&bounds(), Horizontal::Left, Vertical::Center);
    assert_eq!(p, Point { x: 10, y: 20 });
}

#[test]
fn rectangle_containment() {
    let b = bounds();
    assert!(b.contains(Point { x: 10, y: 10 }));
    assert!(b.contains(Point { x: 109, y: 29 }));
    assert!(!b.contains(Point { x: 110, y: 10 }));
    assert!(!b.contains(Point { x: 10, y: 30 }));
    assert!(!b.contains(Point { x: 9, y: 10 }));
}

#[test]
fn alignment_anchoring_saturates() {
    let huge = Rectangle { x: u32::MAX - 5, y: u32::MAX - 5, width: 100, height: 100 };
    let p = anchor(&huge, Horizontal::Right, Vertical::Bottom);
    assert_eq!(p, Point { x: u32::MAX, y: u32::MAX });
}
