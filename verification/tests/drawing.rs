//! Draw passes: the command lists both widgets hand to the host canvas.

use lily::draw::{ColorRole, DrawCmd};
use lily::geom::{Bounds, Vec2};
use lily::map::ZoomRange;
use lily::mseg::MsegGraph;
use lily::xy_pad::{InternalState, XyPad};

const MAX: i64 = 80_000;

fn full_range() -> ZoomRange {
    ZoomRange::new(0, 10_000)
}

#[test]
fn graph_draws_polyline_then_markers() {
    let g = MsegGraph::new(MAX);
    let pts = vec![Vec2::new(0, 10_000), Vec2::new(80_000, 0)];
    let bounds = Bounds::new(100, 200, 80_000, 10_000);
    let cmds = g.draw(&pts, full_range(), bounds);
    // One connecting line, then one plain marker per point.
    assert_eq!(cmds.len(), 3);
    assert_eq!(
        cmds[0],
        DrawCmd::Line {
            x0: 100,
            y0: 200,
            x1: 100 + 80_000,
            y1: 200 + 10_000,
            width: 200,
            color: ColorRole::WidgetBorder,
        }
    );
    assert_eq!(
        cmds[1],
        DrawCmd::FillCircle { cx: 100, cy: 200, radius: 400, color: ColorRole::PointBorder }
    );
    assert_eq!(
        cmds[2],
        DrawCmd::FillCircle {
            cx: 100 + 80_000,
            cy: 200 + 10_000,
            radius: 400,
            color: ColorRole::PointBorder,
        }
    );
}

#[test]
fn empty_envelope_draws_nothing() {
    let g = MsegGraph::new(MAX);
    let pts: Vec<Vec2> = Vec::new();
    let cmds = g.draw(&pts, full_range(), Bounds::new(0, 0, 80_000, 10_000));
    assert!(cmds.is_empty());
}

#[test]
fn single_point_draws_marker_without_lines() {
    let g = MsegGraph::new(MAX);
    let pts = vec![Vec2::new(40_000, 5_000)];
    let cmds = g.draw(&pts, full_range(), Bounds::new(0, 0, 80_000, 10_000));
    assert_eq!(cmds.len(), 1);
    assert_eq!(
        cmds[0],
        DrawCmd::FillCircle { cx: 40_000, cy: 5_000, radius: 400, color: ColorRole::PointBorder }
    );
}

#[test]
fn graph_emphasizes_the_active_point() {
    let mut g = MsegGraph::new(MAX);
    g.active_point_id = Some(1);
    let pts = vec![Vec2::new(0, 10_000), Vec2::new(40_000, 5_000), Vec2::new(80_000, 0)];
    let bounds = Bounds::new(0, 0, 80_000, 10_000);
    let cmds = g.draw(&pts, full_range(), bounds);
    // Two connecting lines, a plain marker, an active marker (two
    // commands), a plain marker.
    assert_eq!(cmds.len(), 6);
    assert_eq!(
        cmds[3],
        DrawCmd::FillCircle { cx: 40_000, cy: 5_000, radius: 400, color: ColorRole::PointFill }
    );
    assert_eq!(
        cmds[4],
        DrawCmd::StrokeCircle {
            cx: 40_000,
            cy: 5_000,
            radius: 800,
            width: 200,
            color: ColorRole::PointFill,
        }
    );
    assert_eq!(
        cmds[5],
        DrawCmd::FillCircle { cx: 80_000, cy: 10_000, radius: 400, color: ColorRole::PointBorder }
    );
}

#[test]
fn pad_draws_reference_geometry_when_idle() {
    let pad = XyPad::new();
    let bounds = Bounds::new(0, 0, 20_000, 20_000);
    let cmds = pad.draw(Vec2::new(0, 0), bounds, Vec2::new(0, 0));
    // Background, two axis lines, three circles, the point marker.
    assert_eq!(cmds.len(), 7);
    assert_eq!(
        cmds[0],
        DrawCmd::FillRect { x: 0, y: 0, w: 20_000, h: 20_000, color: ColorRole::WidgetBackground }
    );
    // Concentric reference circles at 100%, 66% and 33% of half the width.
    assert_eq!(
        cmds[3],
        DrawCmd::StrokeCircle {
            cx: 10_000,
            cy: 10_000,
            radius: 10_000,
            width: 100,
            color: ColorRole::WidgetBorder,
        }
    );
    assert_eq!(
        cmds[4],
        DrawCmd::StrokeCircle {
            cx: 10_000,
            cy: 10_000,
            radius: 6_600,
            width: 100,
            color: ColorRole::WidgetBorder,
        }
    );
    assert_eq!(
        cmds[5],
        DrawCmd::StrokeCircle {
            cx: 10_000,
            cy: 10_000,
            radius: 3_300,
            width: 100,
            color: ColorRole::WidgetBorder,
        }
    );
    assert_eq!(
        cmds[6],
        DrawCmd::FillCircle { cx: 10_000, cy: 10_000, radius: 400, color: ColorRole::PointFill }
    );
}

#[test]
fn pad_adds_outline_when_hovering_and_crosshair_when_dragging() {
    let bounds = Bounds::new(0, 0, 20_000, 20_000);
    let mut pad = XyPad::new();
    pad.state = InternalState::Hovering;
    let hovering = pad.draw(Vec2::new(0, 0), bounds, Vec2::new(10_500, 10_000));
    assert_eq!(hovering.len(), 8);
    assert_eq!(
        hovering[7],
        DrawCmd::StrokeCircle {
            cx: 10_000,
            cy: 10_000,
            radius: 800,
            width: 200,
            color: ColorRole::PointBorder,
        }
    );
    pad.state = InternalState::Dragging;
    let dragging = pad.draw(Vec2::new(0, 0), bounds, Vec2::new(12_000, 9_000));
    assert_eq!(dragging.len(), 10);
    // Full-bounds crosshair lines through the cursor.
    assert_eq!(
        dragging[6],
        DrawCmd::Line { x0: 12_000, y0: 0, x1: 12_000, y1: 20_000, width: 100, color: ColorRole::Crosshair }
    );
    assert_eq!(
        dragging[7],
        DrawCmd::Line { x0: 0, y0: 9_000, x1: 20_000, y1: 9_000, width: 100, color: ColorRole::Crosshair }
    );
}
