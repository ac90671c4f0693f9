//! Coordinate mapping: forward, inverse, round trip, and the pad's
//! fixed-domain mapping.

use lily::geom::{Bounds, Vec2};
use lily::map::{
    data_to_bounds_pos_range, data_to_ui_pos_range, ui_to_data_pos_range, ZoomRange,
};

// Full zoom over an 8-second domain on an 800-pixel-wide widget: one
// pixel-space unit per data x unit, so the round trip is exact.
const MAX: i64 = 80_000;
const W: i64 = 80_000;
const H: i64 = 10_000;

fn full_range() -> ZoomRange {
    ZoomRange::new(0, 10_000)
}

#[test]
fn forward_maps_window_onto_width() {
    let r = full_range();
    let lo = data_to_ui_pos_range(Vec2::new(0, 0), r, MAX, W, H);
    assert_eq!(lo.x, 0);
    assert_eq!(lo.y, H); // data y 0 is the bottom edge
    let hi = data_to_ui_pos_range(Vec2::new(MAX, 10_000), r, MAX, W, H);
    assert_eq!(hi.x, W);
    assert_eq!(hi.y, 0); // data y 1 is the top edge
}

#[test]
fn forward_midpoint() {
    let r = full_range();
    let mid = data_to_ui_pos_range(Vec2::new(40_000, 5_000), r, MAX, W, H);
    assert_eq!(mid.x, W / 2);
    assert_eq!(mid.y, H / 2);
}

#[test]
fn round_trip_is_exact_at_unit_resolution() {
    let r = full_range();
    for &(x, y) in &[(0i64, 0i64), (12_345, 9_999), (40_000, 5_000), (80_000, 10_000)] {
        let ui = data_to_ui_pos_range(Vec2::new(x, y), r, MAX, W, H);
        let back = ui_to_data_pos_range(ui, r, MAX, W, H);
        assert!(x - 1 <= back.x && back.x <= x, "x came back as {}", back.x);
        assert!(y - 1 <= back.y && back.y <= y, "y came back as {}", back.y);
    }
}

#[test]
fn round_trip_under_zoom() {
    // Zoomed to the middle half [0.25, 0.75] of the domain.
    let r = ZoomRange::new(2_500, 7_500);
    let x: i64 = 30_000;
    let y: i64 = 2_000;
    let ui = data_to_ui_pos_range(Vec2::new(x, y), r, MAX, W, H);
    let back = ui_to_data_pos_range(ui, r, MAX, W, H);
    assert!(x - 1 <= back.x && back.x <= x);
    assert!(y - 1 <= back.y && back.y <= y);
}

#[test]
fn zoom_window_start_maps_to_left_edge() {
    let r = ZoomRange::new(2_500, 7_500);
    // Data x at the window start (0.25 * 8 s = 2 s) maps to pixel 0.
    let p = data_to_ui_pos_range(Vec2::new(20_000, 0), r, MAX, W, H);
    assert_eq!(p.x, 0);
    // A point left of the window extrapolates to a negative position.
    let q = data_to_ui_pos_range(Vec2::new(0, 0), r, MAX, W, H);
    assert!(q.x < 0);
}

#[test]
fn bounds_pos_offsets_by_origin() {
    let r = full_range();
    let bounds = Bounds::new(700, 900, W, H);
    let p = data_to_bounds_pos_range(bounds, Vec2::new(40_000, 5_000), r, MAX);
    assert_eq!(p.x, 700 + W / 2);
    assert_eq!(p.y, 900 + H / 2);
}

#[test]
fn pad_forward_center_and_corners() {
    let bounds = Bounds::new(0, 0, 20_000, 20_000);
    let center = bounds.map_data_point(Vec2::new(0, 0));
    assert_eq!(center, Vec2::new(10_000, 10_000));
    // (-1, -1) is the bottom-left corner: x at the left edge, y at the
    // bottom edge (pixel y grows downward).
    let corner = bounds.map_data_point(Vec2::new(-10_000, -10_000));
    assert_eq!(corner, Vec2::new(0, 20_000));
    let other = bounds.map_data_point(Vec2::new(10_000, 10_000));
    assert_eq!(other, Vec2::new(20_000, 0));
}

#[test]
fn pad_inverse_of_forward() {
    let bounds = Bounds::new(500, 600, 20_000, 20_000);
    for &(x, y) in &[(0i64, 0i64), (-10_000, 10_000), (4_000, -6_000)] {
        let ui = bounds.map_data_point(Vec2::new(x, y));
        let back = bounds.map_ui_point(ui);
        assert!(x - 1 <= back.x && back.x <= x + 1, "x came back as {}", back.x);
        assert!(y - 1 <= back.y && back.y <= y + 1, "y came back as {}", back.y);
    }
}
