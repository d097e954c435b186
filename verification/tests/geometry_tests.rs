use pong::geometry::{Circle, Rect, Vec2, Viewport};

fn paddle() -> Rect {
    Rect { x: 10, y: 100, w: 30, h: 100 }
}

#[test]
fn rect_edges() {
    let r = paddle();
    assert_eq!(r.top(), 100);
    assert_eq!(r.bottom(), 200);
    assert_eq!(r.right(), 40);
}

#[test]
fn circle_inside_rect_overlaps() {
    let c = Circle { x: 25, y: 150, r: 10 };
    assert!(c.overlaps_rect(&paddle()));
}

#[test]
fn circle_touching_right_edge_overlaps() {
    let c = Circle { x: 50, y: 150, r: 10 };
    assert!(c.overlaps_rect(&paddle()));
}

#[test]
fn circle_one_unit_off_right_edge_misses() {
    let c = Circle { x: 51, y: 150, r: 10 };
    assert!(!c.overlaps_rect(&paddle()));
}

#[test]
fn circle_touching_left_edge_overlaps() {
    let c = Circle { x: 0, y: 150, r: 10 };
    assert!(c.overlaps_rect(&paddle()));
    let off = Circle { x: -1, y: 150, r: 10 };
    assert!(!off.overlaps_rect(&paddle()));
}

#[test]
fn circle_touching_top_and_bottom_edges() {
    assert!(Circle { x: 25, y: 90, r: 10 }.overlaps_rect(&paddle()));
    assert!(!Circle { x: 25, y: 89, r: 10 }.overlaps_rect(&paddle()));
    assert!(Circle { x: 25, y: 210, r: 10 }.overlaps_rect(&paddle()));
    assert!(!Circle { x: 25, y: 211, r: 10 }.overlaps_rect(&paddle()));
}

#[test]
fn circle_near_corner_uses_euclidean_distance() {
    // The corner (40, 100) is 6 right and 8 up from the centre: distance 10.
    assert!(Circle { x: 46, y: 92, r: 10 }.overlaps_rect(&paddle()));
    // 7 right and 8 up: 49 + 64 = 113 > 100.
    assert!(!Circle { x: 47, y: 92, r: 10 }.overlaps_rect(&paddle()));
    // Within the radius on each axis alone, outside it together.
    assert!(!Circle { x: 49, y: 91, r: 10 }.overlaps_rect(&paddle()));
}

#[test]
fn overlap_at_the_coordinate_limits() {
    let far = Circle { x: -1_000_000_000, y: -1_000_000_000, r: 1_000_000_000 };
    let rect = Rect { x: 1_000_000_000, y: 1_000_000_000, w: 1_000_000_000, h: 1_000_000_000 };
    assert!(!far.overlaps_rect(&rect));
    let wide = Circle { x: 0, y: 0, r: 1_000_000_000 };
    let near = Rect { x: 600_000_000, y: 800_000_000, w: 5, h: 5 };
    assert!(wide.overlaps_rect(&near));
    let just_off = Rect { x: 600_000_001, y: 800_000_000, w: 5, h: 5 };
    assert!(!wide.overlaps_rect(&just_off));
}

#[test]
fn well_formedness_checks() {
    assert!(paddle().is_wf());
    assert!(!Rect { x: 0, y: 0, w: 0, h: 10 }.is_wf());
    assert!(!Rect { x: 0, y: 0, w: 10, h: -1 }.is_wf());
    assert!(!Rect { x: 1_000_000_001, y: 0, w: 10, h: 10 }.is_wf());
    assert!(Circle { x: 0, y: 0, r: 1 }.is_wf());
    assert!(!Circle { x: 0, y: 0, r: 0 }.is_wf());
    assert!(!Circle { x: 0, y: -1_000_000_001, r: 5 }.is_wf());
    assert!(Vec2 { x: 1_000_000_000, y: -1_000_000_000 }.is_wf());
    assert!(!Vec2 { x: 1_000_000_001, y: 0 }.is_wf());
    assert!(Viewport { width: 1200, height: 650 }.is_wf());
    assert!(Viewport { width: 1_000_000, height: 1 }.is_wf());
    assert!(!Viewport { width: 0, height: 650 }.is_wf());
    assert!(!Viewport { width: 1200, height: 1_000_001 }.is_wf());
}
