//! The multi-point envelope editor: hover tracking, drag-to-move with
//! neighbor clamping and pinned endpoints, and point removal.
//!
//! The widget owns only transient interaction state ([`MsegGraph`]); the
//! points and the zoom range are owned externally and handed in, read-only,
//! with every event. Mutation happens solely through the callbacks the
//! widget requests in its [`GraphOutput`], which the host shell performs
//! after the handler returns.

use vstd::prelude::*;
use crate::capture::{cap_step_ok, CapStep};
use crate::draw::{ColorRole, DrawCmd, MARKER_RADIUS, OUTLINE_RADIUS, THICK_STROKE};
use crate::event::{MouseButton, WindowEvent};
use crate::geom::{
    clamp, clamp_spec, Bounds, Vec2, DOMAIN_LIMIT, MIN_RESOLUTION, NORM_ONE, SIZE_LIMIT,
};
use crate::hover::{closest_within_radius, is_hover_choice};
use crate::map::{
    data_to_bounds_pos_range, data_to_ui_pos_range, graph_data_x, graph_data_y, graph_ui_x,
    graph_ui_y, ui_to_data_pos_range, ZoomRange,
};

verus! {

/// Transient interaction state of the envelope editor.
pub struct MsegGraph {
    /// The max x, in data units, of the envelope visualization: the length
    /// of the full (unzoomed) time domain.
    pub max: i64,
    /// The index of the currently hovered or pressed graph point.
    pub active_point_id: Option<usize>,
    /// Whether we are in the process of dragging a graph point.
    pub is_dragging_point: bool,
}

/// The actions one event asks of the host: pointer-capture changes and the
/// callbacks to invoke. At most one callback fires per event.
pub struct GraphOutput {
    /// Acquire pointer capture.
    pub capture: bool,
    /// Release pointer capture.
    pub release: bool,
    /// Invoke the point-changing callback with this index and candidate
    /// position; the owner performs the actual mutation.
    pub on_changing_point: Option<(usize, Vec2)>,
    /// Invoke the point-removed callback with this index.
    pub on_remove_point: Option<usize>,
    /// Invoke the point-inserted callback. Declared in the contract but
    /// never requested: insertion is reserved, unimplemented interaction.
    pub on_insert_point: Option<(usize, Vec2)>,
}

impl GraphOutput {
    /// No action at all.
    pub open spec fn quiet(self) -> bool {
        &&& !self.capture
        &&& !self.release
        &&& self.on_changing_point is None
        &&& self.on_remove_point is None
        &&& self.on_insert_point is None
    }

    /// The capture-discipline content of this output, against the held
    /// state the widget is left in.
    pub open spec fn as_step(self, held_after: bool) -> CapStep {
        CapStep { acquires: self.capture, releases: self.release, held_after }
    }
}

/// The pixel positions of all data points under the current zoom and size,
/// in index order.
pub open spec fn ui_points_spec(
    points: Seq<Vec2>,
    s: int,
    e: int,
    m: int,
    w: int,
    h: int,
) -> Seq<Vec2> {
    Seq::new(
        points.len(),
        |j: int|
            Vec2 {
                x: graph_ui_x(points[j].x as int, s, e, m, w) as i64,
                y: graph_ui_y(points[j].y as int, h) as i64,
            },
    )
}

/// The candidate position for dragging point `i` toward pixel position
/// `cursor`: point 0 is pinned to the origin; the last point's value is
/// pinned to 0; x is clamped between the neighbors' x, `MIN_RESOLUTION`
/// apart, with 0 before the first point and `m` after the last; y is
/// clamped to `[0, 1]`.
pub open spec fn drag_candidate(
    points: Seq<Vec2>,
    i: int,
    cursor: Vec2,
    s: int,
    e: int,
    m: int,
    w: int,
    h: int,
) -> (int, int) {
    if i == 0 {
        (0, 0)
    } else {
        let raw_x = graph_data_x(cursor.x as int, s, e, m, w);
        let raw_y = if i == points.len() - 1 {
            0
        } else {
            graph_data_y(cursor.y as int, h)
        };
        let left = (if i - 1 < points.len() {
            points[i - 1].x as int
        } else {
            0
        }) + MIN_RESOLUTION;
        let right = (if i + 1 < points.len() {
            points[i + 1].x as int
        } else {
            m
        }) - MIN_RESOLUTION;
        (clamp_spec(raw_x, left, right), clamp_spec(raw_y, 0, NORM_ONE as int))
    }
}

/// Dragging point 0 always proposes the origin `(0, 0)`: the first point
/// is pinned, whatever the cursor position and the data view.
pub proof fn lemma_first_point_pinned(
    points: Seq<Vec2>,
    cursor: Vec2,
    s: int,
    e: int,
    m: int,
    w: int,
    h: int,
)
    ensures
        drag_candidate(points, 0, cursor, s, e, m, w, h) == (0int, 0int),
{
}

/// Dragging the last point always proposes value 0: the envelope's tail
/// is pinned to the baseline, whatever the cursor position.
pub proof fn lemma_last_point_pinned(
    points: Seq<Vec2>,
    i: int,
    cursor: Vec2,
    s: int,
    e: int,
    m: int,
    w: int,
    h: int,
)
    requires
        1 <= i,
        i == points.len() - 1,
    ensures
        drag_candidate(points, i, cursor, s, e, m, w, h).1 == 0,
{
}

/// Everything one event does: how the next state and the requested actions
/// follow from the previous state, the data view and the event.
pub open spec fn event_rel(
    pre: MsegGraph,
    points: Seq<Vec2>,
    range: ZoomRange,
    w: int,
    h: int,
    ev: WindowEvent,
    post: MsegGraph,
    out: GraphOutput,
) -> bool {
    let s = range.start as int;
    let e = range.end as int;
    let m = pre.max as int;
    &&& post.max == pre.max
    &&& out.on_insert_point is None
    &&& match ev {
        WindowEvent::MouseDown { button: MouseButton::Left } => {
            if pre.active_point_id is Some && !pre.is_dragging_point {
                // Begin a drag from the hovered point.
                &&& post.active_point_id == pre.active_point_id
                &&& post.is_dragging_point
                &&& out.capture
                &&& !out.release
                &&& out.on_changing_point is None
                &&& out.on_remove_point is None
            } else {
                // No hovered point (insertion is reserved, unimplemented),
                // or already dragging: nothing happens.
                &&& post == pre
                &&& out.quiet()
            }
        },
        WindowEvent::MouseDown { button: MouseButton::Right } => {
            match pre.active_point_id {
                Some(index) => {
                    // Delete the currently active point.
                    &&& post.active_point_id == pre.active_point_id
                    &&& !post.is_dragging_point
                    &&& !out.capture
                    &&& out.release
                    &&& out.on_changing_point is None
                    &&& out.on_remove_point == Some(index)
                },
                None => {
                    &&& post == pre
                    &&& out.quiet()
                },
            }
        },
        WindowEvent::MouseDown { button: MouseButton::Other } => {
            &&& post == pre
            &&& out.quiet()
        },
        WindowEvent::MouseUp { button } => {
            if button == MouseButton::Left {
                // Stop dragging, release capture, idempotently.
                &&& post.active_point_id == pre.active_point_id
                &&& !post.is_dragging_point
                &&& !out.capture
                &&& out.release
                &&& out.on_changing_point is None
                &&& out.on_remove_point is None
            } else {
                &&& post == pre
                &&& out.quiet()
            }
        },
        WindowEvent::MouseMove { x, y } => {
            let cursor = Vec2 { x, y };
            if pre.is_dragging_point {
                // Ask the owner to move the active point to the clamped
                // candidate under the cursor.
                &&& post == pre
                &&& !out.capture
                &&& !out.release
                &&& out.on_remove_point is None
                &&& match pre.active_point_id {
                    Some(i) => out.on_changing_point matches Some((ci, v)) && ci == i && (
                    v.x as int,
                    v.y as int,
                    ) == drag_candidate(points, i as int, cursor, s, e, m, w, h),
                    None => false,
                }
            } else {
                // Re-derive the hover target from the mapped points.
                &&& is_hover_choice(
                    ui_points_spec(points, s, e, m, w, h),
                    cursor,
                    post.active_point_id,
                )
                &&& !post.is_dragging_point
                &&& out.quiet()
            }
        },
    }
}

impl MsegGraph {
    /// Interaction state is sound: the max domain is usable and a drag
    /// always has an active point.
    pub open spec fn wf(self) -> bool {
        &&& 0 < self.max <= DOMAIN_LIMIT
        &&& self.is_dragging_point ==> self.active_point_id is Some
    }

    /// Whether the widget considers itself holding pointer capture.
    pub open spec fn held_capture(self) -> bool {
        self.is_dragging_point
    }

    /// A fresh envelope editor over the time domain `[0, max]`, with no
    /// hovered point and no drag in progress.
    pub fn new(max: i64) -> (r: MsegGraph)
        requires
            0 < max <= DOMAIN_LIMIT,
        ensures
            r.wf(),
            r.max == max,
            r.active_point_id is None,
            !r.is_dragging_point,
    {
        MsegGraph { max, active_point_id: None, is_dragging_point: false }
    }

    /// Handle one pointer event against the current data view: `points`
    /// and `range` are the owner's current values, `w` and `h` the
    /// widget's size. Returns the actions for the host shell to perform.
    pub fn event(&mut self, points: &Vec<Vec2>, range: ZoomRange, w: i64, h: i64, ev: WindowEvent)
        -> (out: GraphOutput)
        requires
            old(self).wf(),
            range.wf(),
            1 <= w <= SIZE_LIMIT,
            1 <= h <= SIZE_LIMIT,
            forall|j: int|
                0 <= j < points@.len() ==> (#[trigger] points@[j]).wf_data(old(self).max as int),
            ev matches WindowEvent::MouseMove { x, y } ==> (Vec2 { x, y }).wf_cursor(),
        ensures
            final(self).wf(),
            event_rel(*old(self), points@, range, w as int, h as int, ev, *final(self), out),
            cap_step_ok(old(self).held_capture(), out.as_step(final(self).held_capture())),
    {
        match ev {
            WindowEvent::MouseDown { button } => match button {
                MouseButton::Left => {
                    if self.active_point_id.is_some() && !self.is_dragging_point {
                        self.is_dragging_point = true;
                        GraphOutput {
                            capture: true,
                            release: false,
                            on_changing_point: None,
                            on_remove_point: None,
                            on_insert_point: None,
                        }
                    } else {
                        quiet_output()
                    }
                },
                MouseButton::Right => match self.active_point_id {
                    Some(index) => {
                        self.is_dragging_point = false;
                        GraphOutput {
                            capture: false,
                            release: true,
                            on_changing_point: None,
                            on_remove_point: Some(index),
                            on_insert_point: None,
                        }
                    },
                    None => quiet_output(),
                },
                MouseButton::Other => quiet_output(),
            },
            WindowEvent::MouseUp { button } => match button {
                MouseButton::Left => {
                    self.is_dragging_point = false;
                    GraphOutput {
                        capture: false,
                        release: true,
                        on_changing_point: None,
                        on_remove_point: None,
                        on_insert_point: None,
                    }
                },
                _ => quiet_output(),
            },
            WindowEvent::MouseMove { x, y } => {
                let cursor = Vec2 { x, y };
                if self.is_dragging_point {
                    match self.active_point_id {
                        Some(i) => {
                            let v = drag_point(points, i, cursor, range, self.max, w, h);
                            GraphOutput {
                                capture: false,
                                release: false,
                                on_changing_point: Some((i, v)),
                                on_remove_point: None,
                                on_insert_point: None,
                            }
                        },
                        None => quiet_output(),
                    }
                } else {
                    let ui = map_points(points, range, self.max, w, h);
                    let choice = closest_within_radius(&ui, cursor);
                    self.active_point_id = choice;
                    quiet_output()
                }
            },
        }
    }
}

/// The absolute pixel positions of all points: [`ui_points_spec`] offset
/// by the widget's screen origin.
pub open spec fn bounds_points_spec(
    points: Seq<Vec2>,
    s: int,
    e: int,
    m: int,
    bounds: Bounds,
) -> Seq<Vec2> {
    Seq::new(
        points.len(),
        |j: int|
            Vec2 {
                x: (bounds.x + graph_ui_x(points[j].x as int, s, e, m, bounds.w as int)) as i64,
                y: (bounds.y + graph_ui_y(points[j].y as int, bounds.h as int)) as i64,
            },
    )
}

/// The polyline connecting consecutive points, in index order.
pub open spec fn polyline_cmds(ui: Seq<Vec2>) -> Seq<DrawCmd> {
    Seq::new(
        if ui.len() == 0 {
            0
        } else {
            (ui.len() - 1) as nat
        },
        |i: int|
            DrawCmd::Line {
                x0: ui[i].x,
                y0: ui[i].y,
                x1: ui[i + 1].x,
                y1: ui[i + 1].y,
                width: THICK_STROKE,
                color: ColorRole::WidgetBorder,
            },
    )
}

/// Whether `i` is the active (hovered or dragged) index.
pub open spec fn is_active(active: Option<usize>, i: int) -> bool {
    match active {
        Some(a) => a == i,
        None => false,
    }
}

/// The marker of one point: a filled circle, with an additional emphasis
/// outline when the point is active. The active point takes the point
/// fill color; an inactive one the point border color.
pub open spec fn marker_cmds(p: Vec2, active: bool) -> Seq<DrawCmd> {
    if active {
        seq![
            DrawCmd::FillCircle {
                cx: p.x,
                cy: p.y,
                radius: MARKER_RADIUS,
                color: ColorRole::PointFill,
            },
            DrawCmd::StrokeCircle {
                cx: p.x,
                cy: p.y,
                radius: OUTLINE_RADIUS,
                width: THICK_STROKE,
                color: ColorRole::PointFill,
            },
        ]
    } else {
        seq![
            DrawCmd::FillCircle {
                cx: p.x,
                cy: p.y,
                radius: MARKER_RADIUS,
                color: ColorRole::PointBorder,
            },
        ]
    }
}

/// The markers of the first `n` points, in index order.
pub open spec fn marker_cmds_upto(ui: Seq<Vec2>, active: Option<usize>, n: int) -> Seq<DrawCmd>
    decreases n,
{
    if n <= 0 {
        Seq::empty()
    } else {
        marker_cmds_upto(ui, active, n - 1) + marker_cmds(ui[n - 1], is_active(active, n - 1))
    }
}

/// Everything one draw pass of the envelope editor paints, in paint
/// order: the polyline, then every point marker.
pub open spec fn graph_draw_spec(ui: Seq<Vec2>, active: Option<usize>) -> Seq<DrawCmd> {
    polyline_cmds(ui) + marker_cmds_upto(ui, active, ui.len() as int)
}

impl MsegGraph {
    /// The shapes one draw pass paints for the current data view, in
    /// paint order. Drawing reads the state and mutates nothing.
    pub fn draw(&self, points: &Vec<Vec2>, range: ZoomRange, bounds: Bounds) -> (cmds: Vec<
        DrawCmd,
    >)
        requires
            self.wf(),
            range.wf(),
            bounds.wf(),
            forall|j: int|
                0 <= j < points@.len() ==> (#[trigger] points@[j]).wf_data(self.max as int),
        ensures
            cmds@ == graph_draw_spec(
                bounds_points_spec(
                    points@,
                    range.start as int,
                    range.end as int,
                    self.max as int,
                    bounds,
                ),
                self.active_point_id,
            ),
    {
        let ghost target_ui = bounds_points_spec(
            points@,
            range.start as int,
            range.end as int,
            self.max as int,
            bounds,
        );
        let mut ui: Vec<Vec2> = Vec::new();
        let mut idx: usize = 0;
        while idx < points.len()
            invariant
                0 <= idx <= points@.len(),
                range.wf(),
                bounds.wf(),
                0 < self.max <= DOMAIN_LIMIT,
                forall|j: int|
                    0 <= j < points@.len() ==> (#[trigger] points@[j]).wf_data(self.max as int),
                target_ui == bounds_points_spec(
                    points@,
                    range.start as int,
                    range.end as int,
                    self.max as int,
                    bounds,
                ),
                ui@.len() == idx,
                forall|j: int| 0 <= j < idx ==> #[trigger] ui@[j] == target_ui[j],
            decreases points@.len() - idx,
        {
            let p = data_to_bounds_pos_range(bounds, points[idx], range, self.max);
            ui.push(p);
            idx = idx + 1;
        }
        proof {
            assert(ui@ =~= target_ui);
        }
        let mut cmds: Vec<DrawCmd> = Vec::new();
        if ui.len() > 0 {
            let stop: usize = ui.len() - 1;
            let mut i: usize = 0;
            while i < stop
                invariant
                    ui@.len() > 0,
                    stop == ui@.len() - 1,
                    0 <= i <= stop,
                    cmds@.len() == i,
                    forall|j: int| 0 <= j < i ==> #[trigger] cmds@[j] == polyline_cmds(ui@)[j],
                decreases stop - i,
            {
                let a = ui[i];
                let b = ui[i + 1];
                cmds.push(
                    DrawCmd::Line {
                        x0: a.x,
                        y0: a.y,
                        x1: b.x,
                        y1: b.y,
                        width: THICK_STROKE,
                        color: ColorRole::WidgetBorder,
                    },
                );
                i = i + 1;
            }
        }
        proof {
            assert(cmds@ =~= polyline_cmds(ui@));
        }
        let mut k: usize = 0;
        while k < ui.len()
            invariant
                0 <= k <= ui@.len(),
                cmds@ == polyline_cmds(ui@) + marker_cmds_upto(ui@, self.active_point_id, k as int),
            decreases ui@.len() - k,
        {
            let p = ui[k];
            let active: bool = match self.active_point_id {
                Some(a) => a == k,
                None => false,
            };
            if active {
                cmds.push(
                    DrawCmd::FillCircle {
                        cx: p.x,
                        cy: p.y,
                        radius: MARKER_RADIUS,
                        color: ColorRole::PointFill,
                    },
                );
                cmds.push(
                    DrawCmd::StrokeCircle {
                        cx: p.x,
                        cy: p.y,
                        radius: OUTLINE_RADIUS,
                        width: THICK_STROKE,
                        color: ColorRole::PointFill,
                    },
                );
            } else {
                cmds.push(
                    DrawCmd::FillCircle {
                        cx: p.x,
                        cy: p.y,
                        radius: MARKER_RADIUS,
                        color: ColorRole::PointBorder,
                    },
                );
            }
            proof {
                assert(cmds@ =~= polyline_cmds(ui@) + marker_cmds_upto(
                    ui@,
                    self.active_point_id,
                    k as int + 1,
                ));
            }
            k = k + 1;
        }
        cmds
    }
}

/// An output that asks nothing of the host.
fn quiet_output() -> (r: GraphOutput)
    ensures
        r.quiet(),
{
    GraphOutput {
        capture: false,
        release: false,
        on_changing_point: None,
        on_remove_point: None,
        on_insert_point: None,
    }
}

/// The pixel positions of all points under the current zoom and size:
/// executes the mapping of [`ui_points_spec`] point by point.
fn map_points(points: &Vec<Vec2>, range: ZoomRange, max: i64, w: i64, h: i64) -> (r: Vec<Vec2>)
    requires
        range.wf(),
        0 < max <= DOMAIN_LIMIT,
        1 <= w <= SIZE_LIMIT,
        1 <= h <= SIZE_LIMIT,
        forall|j: int| 0 <= j < points@.len() ==> (#[trigger] points@[j]).wf_data(max as int),
    ensures
        r@ == ui_points_spec(
            points@,
            range.start as int,
            range.end as int,
            max as int,
            w as int,
            h as int,
        ),
        forall|j: int| 0 <= j < r@.len() ==> (#[trigger] r@[j]).wf_ui(),
{
    let ghost target = ui_points_spec(
        points@,
        range.start as int,
        range.end as int,
        max as int,
        w as int,
        h as int,
    );
    let mut r: Vec<Vec2> = Vec::new();
    let mut idx: usize = 0;
    while idx < points.len()
        invariant
            0 <= idx <= points@.len(),
            range.wf(),
            0 < max <= DOMAIN_LIMIT,
            1 <= w <= SIZE_LIMIT,
            1 <= h <= SIZE_LIMIT,
            forall|j: int| 0 <= j < points@.len() ==> (#[trigger] points@[j]).wf_data(max as int),
            target == ui_points_spec(
                points@,
                range.start as int,
                range.end as int,
                max as int,
                w as int,
                h as int,
            ),
            r@.len() == idx,
            forall|j: int| 0 <= j < idx ==> #[trigger] r@[j] == target[j],
            forall|j: int| 0 <= j < idx ==> (#[trigger] r@[j]).wf_ui(),
        decreases points@.len() - idx,
    {
        let p = data_to_ui_pos_range(points[idx], range, max, w, h);
        r.push(p);
        idx = idx + 1;
    }
    proof {
        assert(r@ =~= target);
    }
    r
}

/// The clamped drag candidate for point `i` toward pixel position
/// `cursor`: executes [`drag_candidate`].
pub fn drag_point(
    points: &Vec<Vec2>,
    i: usize,
    cursor: Vec2,
    range: ZoomRange,
    max: i64,
    w: i64,
    h: i64,
) -> (r: Vec2)
    requires
        cursor.wf_cursor(),
        range.wf(),
        0 < max <= DOMAIN_LIMIT,
        1 <= w <= SIZE_LIMIT,
        1 <= h <= SIZE_LIMIT,
        forall|j: int| 0 <= j < points@.len() ==> (#[trigger] points@[j]).wf_data(max as int),
    ensures
        (r.x as int, r.y as int) == drag_candidate(
            points@,
            i as int,
            cursor,
            range.start as int,
            range.end as int,
            max as int,
            w as int,
            h as int,
        ),
{
    if i == 0 {
        return Vec2 { x: 0, y: 0 };
    }
    let raw = ui_to_data_pos_range(cursor, range, max, w, h);
    let is_last: bool = points.len() > 0 && i == points.len() - 1;
    let raw_y: i64 = if is_last {
        0
    } else {
        raw.y
    };
    let left: i64 = (if i - 1 < points.len() {
        points[i - 1].x
    } else {
        0
    }) + MIN_RESOLUTION;
    let right: i64 = (if i < points.len() && i + 1 < points.len() {
        points[i + 1].x
    } else {
        max
    }) - MIN_RESOLUTION;
    let x = clamp(raw.x, left, right);
    let y = clamp(raw_y, 0, NORM_ONE);
    Vec2 { x, y }
}

} // verus!
