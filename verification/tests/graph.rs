//! The envelope editor: hover selection, drag clamping, pinned endpoints,
//! removal, and the capture discipline.

use lily::event::{MouseButton, WindowEvent};
use lily::geom::Vec2;
use lily::hover::closest_within_radius;
use lily::map::ZoomRange;
use lily::mseg::{drag_point, MsegGraph};

// Full zoom over an 8-second domain on an 800-pixel widget, sized so a
// pixel-space unit equals a data x unit and the y axes align directly.
const MAX: i64 = 80_000;
const W: i64 = 80_000;
const H: i64 = 10_000;

fn full_range() -> ZoomRange {
    ZoomRange::new(0, 10_000)
}

fn points() -> Vec<Vec2> {
    // x = 0, 2, 5, 8 seconds; values on a simple down-slope.
    vec![
        Vec2::new(0, 10_000),
        Vec2::new(20_000, 8_000),
        Vec2::new(50_000, 4_000),
        Vec2::new(80_000, 0),
    ]
}

fn move_to(x: i64, y: i64) -> WindowEvent {
    WindowEvent::MouseMove { x, y }
}

#[test]
fn hover_picks_the_closer_point() {
    // Two points within the radius, at 10 and at 5 pixels: the one at 5
    // pixels wins even though it comes later in index order.
    let ui = vec![Vec2::new(1_000, 0), Vec2::new(0, 500)];
    let cursor = Vec2::new(0, 0);
    assert_eq!(closest_within_radius(&ui, cursor), Some(1));
}

#[test]
fn hover_tie_breaks_to_the_earliest_index() {
    let ui = vec![Vec2::new(1_600, 0), Vec2::new(0, 1_600)];
    let cursor = Vec2::new(0, 0);
    assert_eq!(closest_within_radius(&ui, cursor), Some(0));
}

#[test]
fn hover_boundary_is_inclusive() {
    // Exactly 16 pixels away: hovered. A hundredth of a pixel farther: not.
    let at_16 = vec![Vec2::new(1_600, 0)];
    assert_eq!(closest_within_radius(&at_16, Vec2::new(0, 0)), Some(0));
    let at_16_01 = vec![Vec2::new(1_601, 0)];
    assert_eq!(closest_within_radius(&at_16_01, Vec2::new(0, 0)), None);
}

#[test]
fn mouse_move_updates_hover_state() {
    let mut g = MsegGraph::new(MAX);
    let pts = points();
    // Point 1 sits at pixel (20000, 2000); approach it within the radius.
    let out = g.event(&pts, full_range(), W, H, move_to(20_500, 2_000));
    assert_eq!(g.active_point_id, Some(1));
    assert!(!out.capture && !out.release);
    assert!(out.on_changing_point.is_none() && out.on_remove_point.is_none());
    // Move far away: hover clears.
    g.event(&pts, full_range(), W, H, move_to(40_000, 9_000));
    assert_eq!(g.active_point_id, None);
}

#[test]
fn drag_clamps_between_neighbors() {
    // Dragging point 2 (x = 5 s) toward 8.5 s stops one resolution step
    // before the right neighbor at 8 s; toward 1.5 s it stops one step
    // after the left neighbor at 2 s.
    let pts = points();
    let far_right = drag_point(&pts, 2, Vec2::new(85_000, 6_000), full_range(), MAX, W, H);
    assert_eq!(far_right.x, 79_900);
    let far_left = drag_point(&pts, 2, Vec2::new(15_000, 6_000), full_range(), MAX, W, H);
    assert_eq!(far_left.x, 20_100);
}

#[test]
fn drag_clamps_value_to_unit_range() {
    let pts = points();
    let below = drag_point(&pts, 2, Vec2::new(55_000, H + 3_000), full_range(), MAX, W, H);
    assert_eq!(below.y, 0);
    let above = drag_point(&pts, 2, Vec2::new(55_000, -3_000), full_range(), MAX, W, H);
    assert_eq!(above.y, 10_000);
}

#[test]
fn first_point_is_pinned_to_the_origin() {
    let pts = points();
    for &(x, y) in &[(-5_000i64, 200i64), (40_000, 9_000), (90_000, -100)] {
        let v = drag_point(&pts, 0, Vec2::new(x, y), full_range(), MAX, W, H);
        assert_eq!(v, Vec2::new(0, 0));
    }
}

#[test]
fn last_point_value_is_pinned_to_zero() {
    let pts = points();
    for &y in &[-9_000i64, 0, 4_000, 19_000] {
        let v = drag_point(&pts, 3, Vec2::new(70_000, y), full_range(), MAX, W, H);
        assert_eq!(v.y, 0);
        assert_eq!(v.x, 70_000); // between 5 s + 0.01 and 8 s - 0.01
    }
}

#[test]
fn drag_event_reports_candidate_through_callback() {
    let mut g = MsegGraph::new(MAX);
    let pts = points();
    g.event(&pts, full_range(), W, H, move_to(20_500, 2_000));
    assert_eq!(g.active_point_id, Some(1));
    let down = g.event(&pts, full_range(), W, H, WindowEvent::MouseDown {
        button: MouseButton::Left,
    });
    assert!(down.capture);
    assert!(g.is_dragging_point);
    let drag = g.event(&pts, full_range(), W, H, move_to(30_000, 5_000));
    assert_eq!(drag.on_changing_point, Some((1, Vec2::new(30_000, 5_000))));
    let up = g.event(&pts, full_range(), W, H, WindowEvent::MouseUp {
        button: MouseButton::Left,
    });
    assert!(up.release);
    assert!(!g.is_dragging_point);
}

#[test]
fn right_click_removes_the_active_point_once() {
    // Index 1 active out of four points, drag flag erroneously set: the
    // removal still fires exactly once and clears the drag state.
    let pts = points();
    let mut g = MsegGraph::new(MAX);
    g.active_point_id = Some(1);
    g.is_dragging_point = true;
    let out = g.event(&pts, full_range(), W, H, WindowEvent::MouseDown {
        button: MouseButton::Right,
    });
    assert_eq!(out.on_remove_point, Some(1));
    assert!(out.release && !out.capture);
    assert!(!g.is_dragging_point);
    // Without an active point a right click does nothing.
    let mut idle = MsegGraph::new(MAX);
    let quiet = idle.event(&pts, full_range(), W, H, WindowEvent::MouseDown {
        button: MouseButton::Right,
    });
    assert_eq!(quiet.on_remove_point, None);
    assert!(!quiet.release && !quiet.capture);
}

#[test]
fn press_without_hover_is_reserved_and_does_nothing() {
    let pts = points();
    let mut g = MsegGraph::new(MAX);
    let out = g.event(&pts, full_range(), W, H, WindowEvent::MouseDown {
        button: MouseButton::Left,
    });
    assert!(!out.capture && !out.release);
    assert!(out.on_changing_point.is_none());
    assert!(out.on_insert_point.is_none());
    assert!(!g.is_dragging_point);
}

#[test]
fn empty_envelope_never_hovers() {
    let mut g = MsegGraph::new(MAX);
    let pts: Vec<Vec2> = Vec::new();
    let out = g.event(&pts, full_range(), W, H, move_to(100, 100));
    assert_eq!(g.active_point_id, None);
    assert!(!out.capture && !out.release);
}

#[test]
fn capture_stays_balanced_over_a_session() {
    let pts = points();
    let mut g = MsegGraph::new(MAX);
    let script = vec![
        move_to(20_500, 2_000),
        WindowEvent::MouseDown { button: MouseButton::Left },
        move_to(25_000, 3_000),
        move_to(26_000, 3_500),
        WindowEvent::MouseUp { button: MouseButton::Left },
        move_to(50_000, 6_000),
        WindowEvent::MouseDown { button: MouseButton::Left },
        WindowEvent::MouseDown { button: MouseButton::Left },
        WindowEvent::MouseUp { button: MouseButton::Left },
    ];
    let mut pending: i64 = 0;
    for ev in script {
        let out = g.event(&pts, full_range(), W, H, ev);
        if out.capture {
            pending += 1;
        }
        if out.release {
            pending -= 1;
        }
        assert!(pending <= 1, "more than one pending capture");
    }
    // The script ends on a left-button release: capture is left released.
    assert!(pending <= 0);
}
