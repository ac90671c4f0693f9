//! The drawing vocabulary of both widgets.
//!
//! A draw pass is a pure function of the widget's state and data view: it
//! returns the primitive shapes to paint, in paint order, with colors as
//! semantic roles. The host shell resolves each role against its styling
//! system and strokes or fills the shapes on its canvas; drawing mutates no
//! widget state.

use vstd::prelude::*;

verus! {

/// Point-marker radius, filled (4 pixels).
pub const MARKER_RADIUS: i64 = 400;

/// Emphasis-outline radius around the active marker (8 pixels).
pub const OUTLINE_RADIUS: i64 = 800;

/// Stroke width of emphasized strokes (2 pixels).
pub const THICK_STROKE: i64 = 200;

/// Stroke width of reference strokes (1 pixel).
pub const THIN_STROKE: i64 = 100;

/// A semantic color, resolved by the host's styling system.
#[derive(Clone, Copy, PartialEq, Eq, Structural, Debug)]
pub enum ColorRole {
    /// The widget's own background color.
    WidgetBackground,
    /// The widget's own border color.
    WidgetBorder,
    /// The fill color of the point marker (the `point` class background).
    PointFill,
    /// The border color of the point marker (the `point` class border).
    PointBorder,
    /// The crosshair emphasis color (the `crosshair` class border).
    Crosshair,
}

/// One primitive canvas operation, in pixel-space coordinates.
#[derive(Clone, Copy, PartialEq, Eq, Structural, Debug)]
pub enum DrawCmd {
    Line { x0: i64, y0: i64, x1: i64, y1: i64, width: i64, color: ColorRole },
    FillCircle { cx: i64, cy: i64, radius: i64, color: ColorRole },
    StrokeCircle { cx: i64, cy: i64, radius: i64, width: i64, color: ColorRole },
    FillRect { x: i64, y: i64, w: i64, h: i64, color: ColorRole },
}

} // verus!
