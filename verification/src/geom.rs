//! Shared geometry: scaled-integer vectors, widget bounds, distances and
//! clamping, together with the numeric limits under which every arithmetic
//! operation of the library stays inside `i64`.

use vstd::prelude::*;

verus! {

/// Fixed-point scale of data-space coordinates: the representation of the
/// normalized value `1.0`. One unit is `1e-4` of full scale (or `1e-4`
/// seconds on the envelope's time axis).
pub const NORM_ONE: i64 = 10_000;

/// Fixed-point scale of pixel-space coordinates: units per pixel.
pub const PIX_ONE: i64 = 100;

/// The distance in pixel-space units (16 pixels) at or under which a point
/// counts as hovered.
pub const HOVER_RADIUS: i64 = 1_600;

/// The distance in data-space x units (0.01 seconds) under which two envelope
/// points may not approach each other while dragging.
pub const MIN_RESOLUTION: i64 = 100;

/// Largest max-domain value accepted by the envelope widget (1000 seconds).
pub const DOMAIN_LIMIT: i64 = 10_000_000;

/// Largest accepted widget width or height in pixel-space units
/// (10 000 pixels).
pub const SIZE_LIMIT: i64 = 1_000_000;

/// Largest magnitude accepted for a cursor coordinate or a bounds origin in
/// pixel-space units (100 000 pixels).
pub const PIX_LIMIT: i64 = 10_000_000;

/// Largest magnitude a mapped pixel position may carry and still admit a
/// distance computation against a cursor without overflow. Every position
/// the mapping module produces keeps far within it.
pub const UI_LIMIT: i64 = 0x4000_0000_0000_0000;

/// A two-dimensional vector of scaled-integer coordinates. Whether a value is
/// in data space or in pixel space follows from where it is used.
#[derive(Clone, Copy, PartialEq, Eq, Structural, Debug)]
pub struct Vec2 {
    pub x: i64,
    pub y: i64,
}

impl Vec2 {
    pub fn new(x: i64, y: i64) -> (r: Vec2)
        ensures
            r.x == x,
            r.y == y,
    {
        Vec2 { x, y }
    }

    /// A pixel-space position a widget can receive from the pointer stream.
    pub open spec fn wf_cursor(self) -> bool {
        &&& -PIX_LIMIT <= self.x <= PIX_LIMIT
        &&& -PIX_LIMIT <= self.y <= PIX_LIMIT
    }

    /// An envelope data point: time in `[0, max]`, value in `[0, 1]`.
    pub open spec fn wf_data(self, max: int) -> bool {
        &&& 0 <= self.x <= max
        &&& 0 <= self.y <= NORM_ONE
    }

    /// A pixel-space position that admits distance computations: anything
    /// the mapping module can produce from well-formed inputs.
    pub open spec fn wf_ui(self) -> bool {
        &&& -UI_LIMIT <= self.x <= UI_LIMIT
        &&& -UI_LIMIT <= self.y <= UI_LIMIT
    }

    /// A pad data point: both axes in `[-1, 1]`.
    pub open spec fn wf_pad(self) -> bool {
        &&& -NORM_ONE <= self.x <= NORM_ONE
        &&& -NORM_ONE <= self.y <= NORM_ONE
    }
}

/// Screen-space layout bounds of a widget: origin and extent, in pixel-space
/// units.
#[derive(Clone, Copy, PartialEq, Eq, Structural, Debug)]
pub struct Bounds {
    pub x: i64,
    pub y: i64,
    pub w: i64,
    pub h: i64,
}

impl Bounds {
    pub fn new(x: i64, y: i64, w: i64, h: i64) -> (r: Bounds)
        ensures
            r == (Bounds { x, y, w, h }),
    {
        Bounds { x, y, w, h }
    }

    pub open spec fn wf(self) -> bool {
        &&& -PIX_LIMIT <= self.x <= PIX_LIMIT
        &&& -PIX_LIMIT <= self.y <= PIX_LIMIT
        &&& 1 <= self.w <= SIZE_LIMIT
        &&& 1 <= self.h <= SIZE_LIMIT
    }
}

/// Squared Euclidean distance between two positions.
pub open spec fn dist_sq(a: Vec2, b: Vec2) -> int {
    (a.x - b.x) * (a.x - b.x) + (a.y - b.y) * (a.y - b.y)
}

/// Whether `p` lies within the hover radius of `c`, inclusive.
pub open spec fn within_hover(p: Vec2, c: Vec2) -> bool {
    dist_sq(p, c) <= HOVER_RADIUS * HOVER_RADIUS
}

/// Whether `p` lies within the hover radius of `c`, inclusive: executes
/// [`within_hover`].
pub fn within_hover_exec(p: Vec2, c: Vec2) -> (r: bool)
    requires
        p.wf_ui(),
        c.wf_cursor(),
    ensures
        r == within_hover(p, c),
{
    let dx: i64 = p.x - c.x;
    let dy: i64 = p.y - c.y;
    if dx > HOVER_RADIUS || dx < -HOVER_RADIUS || dy > HOVER_RADIUS || dy < -HOVER_RADIUS {
        proof {
            assert(dx * dx + dy * dy > HOVER_RADIUS * HOVER_RADIUS) by (nonlinear_arith)
                requires
                    dx > HOVER_RADIUS || dx < -HOVER_RADIUS || dy > HOVER_RADIUS || dy
                        < -HOVER_RADIUS,
                    HOVER_RADIUS == 1600,
            ;
        }
        false
    } else {
        proof {
            assert(0 <= dx * dx <= HOVER_RADIUS * HOVER_RADIUS && 0 <= dy * dy <= HOVER_RADIUS
                * HOVER_RADIUS) by (nonlinear_arith)
                requires
                    -HOVER_RADIUS <= dx <= HOVER_RADIUS,
                    -HOVER_RADIUS <= dy <= HOVER_RADIUS,
            ;
        }
        let d: i64 = dx * dx + dy * dy;
        d <= HOVER_RADIUS * HOVER_RADIUS
    }
}

/// `v` pushed up to `lo`, then down to `hi`; when `lo > hi` the upper bound
/// wins, as in the widget's drag clamping.
pub open spec fn clamp_spec(v: int, lo: int, hi: int) -> int {
    let raised = if v < lo {
        lo
    } else {
        v
    };
    if raised > hi {
        hi
    } else {
        raised
    }
}

pub fn clamp(v: i64, lo: i64, hi: i64) -> (r: i64)
    ensures
        r == clamp_spec(v as int, lo as int, hi as int),
{
    let raised: i64 = if v < lo {
        lo
    } else {
        v
    };
    if raised > hi {
        hi
    } else {
        raised
    }
}

} // verus!
