//! The two-axis pad: controls a single point along a normalized XY axis
//! `(-1,-1)..=(1,1)` through a three-state hover/drag machine.
//!
//! The point is owned externally and handed in, read-only, with every
//! event; mutation happens solely through the point-changing callback the
//! widget requests in its [`PadOutput`]. The pad applies no clamping to
//! the dragged value: the owner is responsible for keeping the stored
//! point in range.

use vstd::prelude::*;
use crate::capture::{cap_step_ok, CapStep};
use crate::draw::{
    ColorRole, DrawCmd, MARKER_RADIUS, OUTLINE_RADIUS, THICK_STROKE, THIN_STROKE,
};
use crate::event::{MouseButton, WindowEvent};
use crate::geom::{within_hover, within_hover_exec, Bounds, Vec2};
use crate::map::{lemma_div_magnitude, pad_data_x, pad_data_y, pad_ui_x, pad_ui_y};

verus! {

/// Exactly one holds at a time; transitions are driven by pointer position
/// relative to the point marker and by button press and release.
#[derive(Clone, Copy, PartialEq, Eq, Structural, Debug)]
pub enum InternalState {
    Idle,
    Hovering,
    Dragging,
}

/// Transient interaction state of the pad.
pub struct XyPad {
    pub state: InternalState,
}

/// The actions one event asks of the host: pointer-capture changes and,
/// while dragging, the point-changing callback.
pub struct PadOutput {
    /// Acquire pointer capture.
    pub capture: bool,
    /// Release pointer capture.
    pub release: bool,
    /// Invoke the point-changing callback with this position, the
    /// fixed-domain inverse mapping of the cursor; the owner performs the
    /// actual mutation and any clamping.
    pub on_changing_point: Option<Vec2>,
}

impl PadOutput {
    /// No action at all.
    pub open spec fn quiet(self) -> bool {
        &&& !self.capture
        &&& !self.release
        &&& self.on_changing_point is None
    }

    /// The capture-discipline content of this output, against the held
    /// state the widget is left in.
    pub open spec fn as_step(self, held_after: bool) -> CapStep {
        CapStep { acquires: self.capture, releases: self.release, held_after }
    }
}

/// The pixel position of the pad's data point on the given bounds.
pub open spec fn pad_ui_point(point: Vec2, bounds: Bounds) -> Vec2 {
    Vec2 {
        x: pad_ui_x(point.x as int, bounds.x as int, bounds.w as int) as i64,
        y: pad_ui_y(point.y as int, bounds.y as int, bounds.h as int) as i64,
    }
}

/// Everything one event does: how the next state and the requested
/// actions follow from the previous state, the data view and the event.
pub open spec fn pad_event_rel(
    pre: XyPad,
    point: Vec2,
    bounds: Bounds,
    ev: WindowEvent,
    post: XyPad,
    out: PadOutput,
) -> bool {
    match ev {
        WindowEvent::MouseMove { x, y } => {
            let cursor = Vec2 { x, y };
            let near = within_hover(pad_ui_point(point, bounds), cursor);
            // Within reach and not otherwise engaged: hover. Out of reach
            // and not dragging: idle. A drag is never left by moving.
            &&& post.state == (if near {
                if pre.state == InternalState::Idle {
                    InternalState::Hovering
                } else {
                    pre.state
                }
            } else {
                if pre.state == InternalState::Dragging {
                    InternalState::Dragging
                } else {
                    InternalState::Idle
                }
            })
            &&& !out.capture
            &&& !out.release
            &&& out.on_changing_point == (if pre.state == InternalState::Dragging {
                Some(
                    Vec2 {
                        x: pad_data_x(cursor.x as int, bounds.x as int, bounds.w as int) as i64,
                        y: pad_data_y(cursor.y as int, bounds.y as int, bounds.h as int) as i64,
                    },
                )
            } else {
                Option::<Vec2>::None
            })
        },
        WindowEvent::MouseDown { button: MouseButton::Left } => {
            if pre.state == InternalState::Hovering {
                // Begin a drag: grab exclusive pointer routing.
                &&& post.state == InternalState::Dragging
                &&& out.capture
                &&& !out.release
                &&& out.on_changing_point is None
            } else {
                &&& post == pre
                &&& out.quiet()
            }
        },
        WindowEvent::MouseUp { button: MouseButton::Left } => {
            // Let go of capture; a drag falls back to hovering, anything
            // else to idle.
            &&& post.state == (if pre.state == InternalState::Dragging {
                InternalState::Hovering
            } else {
                InternalState::Idle
            })
            &&& !out.capture
            &&& out.release
            &&& out.on_changing_point is None
        },
        _ => {
            &&& post == pre
            &&& out.quiet()
        },
    }
}

impl XyPad {
    /// Whether the widget considers itself holding pointer capture.
    pub open spec fn held_capture(self) -> bool {
        self.state == InternalState::Dragging
    }

    /// A fresh pad, idle.
    pub fn new() -> (r: XyPad)
        ensures
            r.state == InternalState::Idle,
    {
        XyPad { state: InternalState::Idle }
    }

    /// The widget's element name in the host's styling system.
    pub fn element(&self) -> (r: Option<String>)
        ensures
            r matches Some(s) && s@ == "xy"@,
    {
        let s = "xy".to_string();
        proof {
            vstd::string::to_string_from_display_ensures_for_str("xy", s);
        }
        Some(s)
    }

    /// Handle one pointer event against the current data view: `point` is
    /// the owner's current value, `bounds` the widget's screen bounds.
    /// Returns the actions for the host shell to perform.
    pub fn event(&mut self, point: Vec2, bounds: Bounds, ev: WindowEvent) -> (out: PadOutput)
        requires
            point.wf_pad(),
            bounds.wf(),
            ev matches WindowEvent::MouseMove { x, y } ==> (Vec2 { x, y }).wf_cursor(),
        ensures
            pad_event_rel(*old(self), point, bounds, ev, *final(self), out),
            cap_step_ok(old(self).held_capture(), out.as_step(final(self).held_capture())),
    {
        match ev {
            WindowEvent::MouseMove { x, y } => {
                let cursor = Vec2 { x, y };
                let ui_point = bounds.map_data_point(point);
                let near = within_hover_exec(ui_point, cursor);
                let changing: Option<Vec2> = if self.state == InternalState::Dragging {
                    Some(bounds.map_ui_point(cursor))
                } else {
                    None
                };
                if near {
                    if self.state == InternalState::Idle {
                        self.state = InternalState::Hovering;
                    }
                } else {
                    if self.state != InternalState::Dragging {
                        self.state = InternalState::Idle;
                    }
                }
                PadOutput { capture: false, release: false, on_changing_point: changing }
            },
            WindowEvent::MouseDown { button } => {
                if button == MouseButton::Left && self.state == InternalState::Hovering {
                    self.state = InternalState::Dragging;
                    PadOutput { capture: true, release: false, on_changing_point: None }
                } else {
                    PadOutput { capture: false, release: false, on_changing_point: None }
                }
            },
            WindowEvent::MouseUp { button } => {
                if button == MouseButton::Left {
                    self.state = if self.state == InternalState::Dragging {
                        InternalState::Hovering
                    } else {
                        InternalState::Idle
                    };
                    PadOutput { capture: false, release: true, on_changing_point: None }
                } else {
                    PadOutput { capture: false, release: false, on_changing_point: None }
                }
            },
        }
    }
}

/// Radius of a reference circle: `scale` hundredths of half the widget
/// width.
pub open spec fn pad_circle_radius(w: int, scale: int) -> int {
    (w / 2) * scale / 100
}

/// Everything one draw pass of the pad paints, in paint order: the
/// background, the centered axis lines, three concentric reference
/// circles at 100%, 66% and 33% of half the width, full-bounds crosshair
/// lines through the cursor while dragging, and the point marker with an
/// emphasis outline while hovering or dragging.
pub open spec fn pad_draw_spec(
    state: InternalState,
    point: Vec2,
    bounds: Bounds,
    cursor: Vec2,
) -> Seq<DrawCmd> {
    let cx0 = (bounds.x + bounds.w as int / 2) as i64;
    let cy0 = (bounds.y + bounds.h as int / 2) as i64;
    let right = (bounds.x + bounds.w) as i64;
    let bottom = (bounds.y + bounds.h) as i64;
    let ui = pad_ui_point(point, bounds);
    let base = seq![
        DrawCmd::FillRect {
            x: bounds.x,
            y: bounds.y,
            w: bounds.w,
            h: bounds.h,
            color: ColorRole::WidgetBackground,
        },
        DrawCmd::Line {
            x0: cx0,
            y0: bounds.y,
            x1: cx0,
            y1: bottom,
            width: THIN_STROKE,
            color: ColorRole::WidgetBorder,
        },
        DrawCmd::Line {
            x0: bounds.x,
            y0: cy0,
            x1: right,
            y1: cy0,
            width: THIN_STROKE,
            color: ColorRole::WidgetBorder,
        },
        DrawCmd::StrokeCircle {
            cx: cx0,
            cy: cy0,
            radius: pad_circle_radius(bounds.w as int, 100) as i64,
            width: THIN_STROKE,
            color: ColorRole::WidgetBorder,
        },
        DrawCmd::StrokeCircle {
            cx: cx0,
            cy: cy0,
            radius: pad_circle_radius(bounds.w as int, 66) as i64,
            width: THIN_STROKE,
            color: ColorRole::WidgetBorder,
        },
        DrawCmd::StrokeCircle {
            cx: cx0,
            cy: cy0,
            radius: pad_circle_radius(bounds.w as int, 33) as i64,
            width: THIN_STROKE,
            color: ColorRole::WidgetBorder,
        },
    ];
    let cross = if state == InternalState::Dragging {
        seq![
            DrawCmd::Line {
                x0: cursor.x,
                y0: bounds.y,
                x1: cursor.x,
                y1: bottom,
                width: THIN_STROKE,
                color: ColorRole::Crosshair,
            },
            DrawCmd::Line {
                x0: bounds.x,
                y0: cursor.y,
                x1: right,
                y1: cursor.y,
                width: THIN_STROKE,
                color: ColorRole::Crosshair,
            },
        ]
    } else {
        Seq::<DrawCmd>::empty()
    };
    let marker = seq![
        DrawCmd::FillCircle {
            cx: ui.x,
            cy: ui.y,
            radius: MARKER_RADIUS,
            color: ColorRole::PointFill,
        },
    ];
    let outline = if state == InternalState::Hovering || state == InternalState::Dragging {
        seq![
            DrawCmd::StrokeCircle {
                cx: ui.x,
                cy: ui.y,
                radius: OUTLINE_RADIUS,
                width: THICK_STROKE,
                color: ColorRole::PointBorder,
            },
        ]
    } else {
        Seq::<DrawCmd>::empty()
    };
    base + cross + marker + outline
}

impl XyPad {
    /// The shapes one draw pass paints for the current data view, in
    /// paint order. Drawing reads the state and mutates nothing.
    pub fn draw(&self, point: Vec2, bounds: Bounds, cursor: Vec2) -> (cmds: Vec<DrawCmd>)
        requires
            point.wf_pad(),
            bounds.wf(),
            cursor.wf_cursor(),
        ensures
            cmds@ == pad_draw_spec(self.state, point, bounds, cursor),
    {
        proof {
            lemma_div_magnitude(bounds.w as int, 2);
            lemma_div_magnitude(bounds.h as int, 2);
            lemma_div_magnitude((bounds.w as int / 2) * 100, 100);
            lemma_div_magnitude((bounds.w as int / 2) * 66, 100);
            lemma_div_magnitude((bounds.w as int / 2) * 33, 100);
        }
        let half_w: i64 = (bounds.w as u64 / 2) as i64;
        let half_h: i64 = (bounds.h as u64 / 2) as i64;
        let cx0: i64 = bounds.x + half_w;
        let cy0: i64 = bounds.y + half_h;
        let right: i64 = bounds.x + bounds.w;
        let bottom: i64 = bounds.y + bounds.h;
        let r_full: i64 = ((half_w * 100) as u64 / 100) as i64;
        let r_mid: i64 = ((half_w * 66) as u64 / 100) as i64;
        let r_inner: i64 = ((half_w * 33) as u64 / 100) as i64;
        let ui = bounds.map_data_point(point);
        let mut cmds: Vec<DrawCmd> = Vec::new();
        cmds.push(
            DrawCmd::FillRect {
                x: bounds.x,
                y: bounds.y,
                w: bounds.w,
                h: bounds.h,
                color: ColorRole::WidgetBackground,
            },
        );
        cmds.push(
            DrawCmd::Line {
                x0: cx0,
                y0: bounds.y,
                x1: cx0,
                y1: bottom,
                width: THIN_STROKE,
                color: ColorRole::WidgetBorder,
            },
        );
        cmds.push(
            DrawCmd::Line {
                x0: bounds.x,
                y0: cy0,
                x1: right,
                y1: cy0,
                width: THIN_STROKE,
                color: ColorRole::WidgetBorder,
            },
        );
        cmds.push(
            DrawCmd::StrokeCircle {
                cx: cx0,
                cy: cy0,
                radius: r_full,
                width: THIN_STROKE,
                color: ColorRole::WidgetBorder,
            },
        );
        cmds.push(
            DrawCmd::StrokeCircle {
                cx: cx0,
                cy: cy0,
                radius: r_mid,
                width: THIN_STROKE,
                color: ColorRole::WidgetBorder,
            },
        );
        cmds.push(
            DrawCmd::StrokeCircle {
                cx: cx0,
                cy: cy0,
                radius: r_inner,
                width: THIN_STROKE,
                color: ColorRole::WidgetBorder,
            },
        );
        if self.state == InternalState::Dragging {
            cmds.push(
                DrawCmd::Line {
                    x0: cursor.x,
                    y0: bounds.y,
                    x1: cursor.x,
                    y1: bottom,
                    width: THIN_STROKE,
                    color: ColorRole::Crosshair,
                },
            );
            cmds.push(
                DrawCmd::Line {
                    x0: bounds.x,
                    y0: cursor.y,
                    x1: right,
                    y1: cursor.y,
                    width: THIN_STROKE,
                    color: ColorRole::Crosshair,
                },
            );
        }
        cmds.push(
            DrawCmd::FillCircle {
                cx: ui.x,
                cy: ui.y,
                radius: MARKER_RADIUS,
                color: ColorRole::PointFill,
            },
        );
        if self.state == InternalState::Hovering || self.state == InternalState::Dragging {
            cmds.push(
                DrawCmd::StrokeCircle {
                    cx: ui.x,
                    cy: ui.y,
                    radius: OUTLINE_RADIUS,
                    width: THICK_STROKE,
                    color: ColorRole::PointBorder,
                },
            );
        }
        proof {
            assert(cmds@ =~= pad_draw_spec(self.state, point, bounds, cursor));
        }
        cmds
    }
}

} // verus!
