//! Coordinate mapping between the data domain and pixel space.
//!
//! The envelope widget sees the data window `[start * max, end * max]`
//! (in products of zoom units and x units) mapped linearly onto `[0, w]`,
//! with the y axis inverted: data y grows upward, pixel y grows downward.
//! The pad maps the fixed domain `[-1, 1] x [-1, 1]` onto its bounds, also
//! y-inverted. Mapping never clamps: positions outside the window
//! extrapolate linearly; clamping is the caller's concern.
//!
//! All quotients are floor divisions, stated exactly in each contract, so
//! the round-trip lemmas at the end of this module pin the loss of a
//! ui-and-back conversion to at most one data unit whenever the pixel grid
//! is fine enough to resolve single data units.

use vstd::prelude::*;
use crate::geom::{Bounds, Vec2, DOMAIN_LIMIT, NORM_ONE, PIX_LIMIT, SIZE_LIMIT};
use vstd::arithmetic::div_mod::{
    lemma_div_is_ordered,
    lemma_div_multiples_vanish,
    lemma_fundamental_div_mod,
    lemma_fundamental_div_mod_converse_div,
    lemma_mod_division_less_than_divisor,
};

verus! {

/// The visible fraction `[start, end]` of the full data domain, as
/// fixed-point values in `[0, NORM_ONE]` with `start < end`.
#[derive(Clone, Copy, PartialEq, Eq, Structural, Debug)]
pub struct ZoomRange {
    pub start: i64,
    pub end: i64,
}

impl ZoomRange {
    pub fn new(start: i64, end: i64) -> (r: ZoomRange)
        ensures
            r == (ZoomRange { start, end }),
    {
        ZoomRange { start, end }
    }

    pub open spec fn wf(self) -> bool {
        0 <= self.start < self.end <= NORM_ONE
    }
}

/// The width of the visible data window, in products of zoom units and
/// x units.
pub open spec fn span_of(s: int, e: int, m: int) -> int {
    (e - s) * m
}

/// Pixel x of data x `v` under zoom `[s, e]`, max domain `m`, width `w`.
pub open spec fn graph_ui_x(v: int, s: int, e: int, m: int, w: int) -> int {
    (v * NORM_ONE - s * m) * w / span_of(s, e, m)
}

/// Pixel y of data y `v` on a widget of height `h` (inverted axis).
pub open spec fn graph_ui_y(v: int, h: int) -> int {
    h - v * h / (NORM_ONE as int)
}

/// Data x of pixel x `px`: the inverse direction of [`graph_ui_x`].
pub open spec fn graph_data_x(px: int, s: int, e: int, m: int, w: int) -> int {
    (px * span_of(s, e, m) / w + s * m) / (NORM_ONE as int)
}

/// Data y of pixel y `py`: the inverse direction of [`graph_ui_y`].
pub open spec fn graph_data_y(py: int, h: int) -> int {
    (h - py) * NORM_ONE / h
}

/// Absolute pixel x of pad data x `v` on bounds of origin `bx`, width `w`.
pub open spec fn pad_ui_x(v: int, bx: int, w: int) -> int {
    bx + (v + NORM_ONE) * w / (2 * (NORM_ONE as int))
}

/// Absolute pixel y of pad data y `v` on bounds of origin `by`, height `h`
/// (inverted axis).
pub open spec fn pad_ui_y(v: int, by: int, h: int) -> int {
    by + (NORM_ONE - v) * h / (2 * (NORM_ONE as int))
}

/// Pad data x of absolute pixel x `px`: inverse of [`pad_ui_x`].
pub open spec fn pad_data_x(px: int, bx: int, w: int) -> int {
    (px - bx) * (2 * NORM_ONE) / w - NORM_ONE
}

/// Pad data y of absolute pixel y `py`: inverse of [`pad_ui_y`].
pub open spec fn pad_data_y(py: int, by: int, h: int) -> int {
    NORM_ONE - (py - by) * (2 * NORM_ONE) / h
}

/// Floor division on machine integers; the contract equates it with the
/// mathematical quotient, which rounds toward negative infinity.
fn div_floor(a: i64, b: i64) -> (r: i64)
    requires
        1 <= b,
        -0x2000_0000_0000_0000 <= a <= 0x2000_0000_0000_0000,
        b <= 0x2000_0000_0000_0000,
    ensures
        r == a as int / b as int,
{
    if a >= 0 {
        let q: u64 = a as u64 / b as u64;
        q as i64
    } else {
        let n: u64 = (-a) as u64;
        let q: u64 = (n + (b as u64 - 1)) / b as u64;
        proof {
            let ai = a as int;
            let bi = b as int;
            let ni = n as int;
            lemma_fundamental_div_mod(ni + bi - 1, bi);
            lemma_mod_division_less_than_divisor(ni + bi - 1, bi);
            let qi = (ni + bi - 1) / bi;
            let ri = (ni + bi - 1) % bi;
            assert(ni + bi - 1 == bi * qi + ri);
            assert(ai == (-qi) * bi + (bi - 1 - ri)) by (nonlinear_arith)
                requires
                    ai == -ni,
                    ni + bi - 1 == bi * qi + ri,
            ;
            lemma_fundamental_div_mod_converse_div(ai, bi, -qi, bi - 1 - ri);
        }
        -(q as i64)
    }
}

/// Pixel position (relative to the widget's top-left corner) of the data
/// point `p` under zoom `range` and max domain `max`, on a widget of size
/// `w` by `h`.
pub fn data_to_ui_pos_range(p: Vec2, range: ZoomRange, max: i64, w: i64, h: i64) -> (r: Vec2)
    requires
        range.wf(),
        0 < max <= DOMAIN_LIMIT,
        1 <= w <= SIZE_LIMIT,
        1 <= h <= SIZE_LIMIT,
        p.wf_data(max as int),
    ensures
        r.x == graph_ui_x(p.x as int, range.start as int, range.end as int, max as int, w as int),
        r.y == graph_ui_y(p.y as int, h as int),
        -NORM_ONE * (w as int) <= r.x <= NORM_ONE * (w as int),
        0 <= r.y <= h,
{
    proof {
        assert(0 <= p.x * NORM_ONE <= 0x1_0000_0000_0000
            && 0 <= range.start * max <= 0x1_0000_0000_0000
            && (p.x * NORM_ONE - range.start * max) * w <= 0x2000_0000_0000_0000
            && (p.x * NORM_ONE - range.start * max) * w >= -0x2000_0000_0000_0000
            && 1 <= (range.end - range.start) * max <= 0x2000_0000_0000_0000
            && 0 <= p.y * h <= 0x2000_0000_0000_0000) by (nonlinear_arith)
            requires
                0 <= range.start < range.end <= NORM_ONE,
                0 < max <= DOMAIN_LIMIT,
                1 <= w <= SIZE_LIMIT,
                1 <= h <= SIZE_LIMIT,
                0 <= p.x <= max,
                0 <= p.y <= NORM_ONE,
        ;
        lemma_graph_ui_x_bounds(
            p.x as int,
            range.start as int,
            range.end as int,
            max as int,
            w as int,
        );
        lemma_graph_ui_y_bounds(p.y as int, h as int);
    }
    let span: i64 = (range.end - range.start) * max;
    let px: i64 = div_floor((p.x * NORM_ONE - range.start * max) * w, span);
    let py: i64 = h - div_floor(p.y * h, NORM_ONE);
    Vec2 { x: px, y: py }
}

/// For a data x inside `[0, max]` the mapped pixel x keeps within
/// `NORM_ONE` times the widget width in magnitude, whatever the zoom.
pub proof fn lemma_graph_ui_x_bounds(v: int, s: int, e: int, m: int, w: int)
    requires
        0 <= s < e <= NORM_ONE,
        0 < m,
        1 <= w,
        0 <= v <= m,
    ensures
        -NORM_ONE * w <= graph_ui_x(v, s, e, m, w) <= NORM_ONE * w,
{
    let u = v * NORM_ONE - s * m;
    let span = span_of(s, e, m);
    let cap = NORM_ONE * w;
    assert(0 < span && u * w <= span * cap && u * w >= -(span * cap) && span * (-cap) == -(span
        * cap)) by (nonlinear_arith)
        requires
            0 <= s < e <= NORM_ONE,
            0 < m,
            1 <= w,
            0 <= v <= m,
            u == v * NORM_ONE - s * m,
            span == (e - s) * m,
            cap == NORM_ONE * w,
    ;
    lemma_div_is_ordered(u * w, span * cap, span);
    lemma_div_multiples_vanish(cap, span);
    lemma_div_is_ordered(span * (-cap), u * w, span);
    lemma_div_multiples_vanish(-cap, span);
}

/// A data y inside `[0, NORM_ONE]` maps to a pixel y inside the widget.
pub proof fn lemma_graph_ui_y_bounds(v: int, h: int)
    requires
        0 <= v <= NORM_ONE,
        1 <= h,
    ensures
        0 <= graph_ui_y(v, h) <= h,
{
    assert(0 <= v * h && v * h <= NORM_ONE * h) by (nonlinear_arith)
        requires
            0 <= v <= NORM_ONE,
            1 <= h,
    ;
    lemma_div_magnitude(v * h, NORM_ONE as int);
    lemma_div_is_ordered(v * h, NORM_ONE * h, NORM_ONE as int);
    lemma_div_multiples_vanish(h, NORM_ONE as int);
}

/// Pixel position of `p` offset into absolute screen space: the same map as
/// [`data_to_ui_pos_range`] plus the widget's screen origin.
pub fn data_to_bounds_pos_range(bounds: Bounds, p: Vec2, range: ZoomRange, max: i64) -> (r: Vec2)
    requires
        bounds.wf(),
        range.wf(),
        0 < max <= DOMAIN_LIMIT,
        p.wf_data(max as int),
    ensures
        r.x == bounds.x + graph_ui_x(
            p.x as int,
            range.start as int,
            range.end as int,
            max as int,
            bounds.w as int,
        ),
        r.y == bounds.y + graph_ui_y(p.y as int, bounds.h as int),
{
    let rel = data_to_ui_pos_range(p, range, max, bounds.w, bounds.h);
    Vec2 { x: bounds.x + rel.x, y: bounds.y + rel.y }
}

/// Magnitude of a floor quotient never exceeds the magnitude of the
/// dividend, for a positive divisor.
pub proof fn lemma_div_magnitude(a: int, b: int)
    requires
        1 <= b,
    ensures
        a >= 0 ==> 0 <= a / b <= a,
        a < 0 ==> a <= a / b <= 0,
{
    lemma_fundamental_div_mod(a, b);
    lemma_mod_division_less_than_divisor(a, b);
    assert(a >= 0 ==> 0 <= a / b <= a) by (nonlinear_arith)
        requires
            1 <= b,
            a == b * (a / b) + a % b,
            0 <= a % b < b,
    ;
    assert(a < 0 ==> a <= a / b <= 0) by (nonlinear_arith)
        requires
            1 <= b,
            a == b * (a / b) + a % b,
            0 <= a % b < b,
    ;
}

/// Data position of the pixel position `cursor` (relative to the widget's
/// top-left corner): the inverse direction of [`data_to_ui_pos_range`].
pub fn ui_to_data_pos_range(cursor: Vec2, range: ZoomRange, max: i64, w: i64, h: i64) -> (r: Vec2)
    requires
        cursor.wf_cursor(),
        range.wf(),
        0 < max <= DOMAIN_LIMIT,
        1 <= w <= SIZE_LIMIT,
        1 <= h <= SIZE_LIMIT,
    ensures
        r.x == graph_data_x(
            cursor.x as int,
            range.start as int,
            range.end as int,
            max as int,
            w as int,
        ),
        r.y == graph_data_y(cursor.y as int, h as int),
{
    proof {
        assert(-0x1000_0000_0000_0000 <= cursor.x * ((range.end - range.start) * max)
            <= 0x1000_0000_0000_0000
            && 1 <= (range.end - range.start) * max <= 0x1000_0000_0000_0000
            && 0 <= range.start * max <= 0x1_0000_0000_0000
            && -0x2000_0000_0000_0000 <= (h - cursor.y) * NORM_ONE <= 0x2000_0000_0000_0000)
            by (nonlinear_arith)
            requires
                -PIX_LIMIT <= cursor.x <= PIX_LIMIT,
                -PIX_LIMIT <= cursor.y <= PIX_LIMIT,
                0 <= range.start < range.end <= NORM_ONE,
                0 < max <= DOMAIN_LIMIT,
                1 <= h <= SIZE_LIMIT,
        ;
    }
    let span: i64 = (range.end - range.start) * max;
    let scaled: i64 = div_floor(cursor.x * span, w);
    proof {
        lemma_div_magnitude(cursor.x as int * span as int, w as int);
    }
    let x: i64 = div_floor(scaled + range.start * max, NORM_ONE);
    let y: i64 = div_floor((h - cursor.y) * NORM_ONE, h);
    Vec2 { x, y }
}

/// Scaling a nonnegative integer up by `w` and down by `d`, then back up by
/// `d` and down by `w` (each a floor division), loses at most
/// `ceil((d - 1) / w)`.
proof fn lemma_downscale_upscale(u: int, w: int, d: int)
    requires
        1 <= w,
        1 <= d,
        0 <= u,
    ensures
        ({
            let t = (u * w / d) * d / w;
            0 <= u - t <= (d + w - 2) / w
        }),
{
    let p = u * w / d;
    let r1 = (u * w) % d;
    lemma_fundamental_div_mod(u * w, d);
    lemma_mod_division_less_than_divisor(u * w, d);
    let c = (r1 + w - 1) / w;
    let r2 = (r1 + w - 1) % w;
    lemma_fundamental_div_mod(r1 + w - 1, w);
    lemma_mod_division_less_than_divisor(r1 + w - 1, w);
    assert(p * d == (u - c) * w + (w - 1 - r2)) by (nonlinear_arith)
        requires
            u * w == d * p + r1,
            r1 + w - 1 == w * c + r2,
    ;
    lemma_fundamental_div_mod_converse_div(p * d, w, u - c, w - 1 - r2);
    lemma_div_is_ordered(r1 + w - 1, d + w - 2, w);
    lemma_div_magnitude(r1 + w - 1, w);
}

/// Round trip of the envelope mapping, x direction: mapping a data x inside
/// the visible window into pixel space and back loses at most one data
/// unit, provided the pixel grid resolves single data units
/// (`span_of(s, e, m) <= w * (NORM_ONE - 1)`).
pub proof fn lemma_graph_round_trip_x(x: int, s: int, e: int, m: int, w: int)
    requires
        0 <= s < e <= NORM_ONE,
        0 < m,
        1 <= w,
        s * m <= x * NORM_ONE <= e * m,
        span_of(s, e, m) <= w * (NORM_ONE - 1),
    ensures
        x - 1 <= graph_data_x(graph_ui_x(x, s, e, m, w), s, e, m, w) <= x,
{
    let u = x * NORM_ONE - s * m;
    let span = span_of(s, e, m);
    assert(1 <= span && u * w / span * span == graph_ui_x(x, s, e, m, w) * span)
        by (nonlinear_arith)
        requires
            0 <= s < e <= NORM_ONE,
            0 < m,
            span == (e - s) * m,
            u == x * NORM_ONE - s * m,
            graph_ui_x(x, s, e, m, w) == u * w / span,
    ;
    lemma_downscale_upscale(u, w, span);
    let t = (u * w / span) * span / w;
    let k = u - t;
    assert(w * NORM_ONE - 1 == (NORM_ONE - 1) * w + (w - 1)) by (nonlinear_arith);
    lemma_fundamental_div_mod_converse_div(w * NORM_ONE - 1, w, NORM_ONE - 1, w - 1);
    assert(w * (NORM_ONE - 1) == w * NORM_ONE - w) by (nonlinear_arith);
    lemma_div_is_ordered(span + w - 2, w * NORM_ONE - 1, w);
    assert(0 <= k <= NORM_ONE - 1);
    assert(t + s * m == x * NORM_ONE - k);
    if k == 0 {
        lemma_div_multiples_vanish(x, NORM_ONE as int);
        assert(NORM_ONE * x == x * NORM_ONE) by (nonlinear_arith);
    } else {
        assert(x * NORM_ONE - k == (x - 1) * NORM_ONE + (NORM_ONE - k)) by (nonlinear_arith);
        lemma_fundamental_div_mod_converse_div(
            x * NORM_ONE - k,
            NORM_ONE as int,
            x - 1,
            NORM_ONE - k,
        );
    }
}

/// Round trip of the envelope mapping, y direction: on a widget at least
/// `NORM_ONE` pixel-space units tall, mapping a data y into pixel space and
/// back loses at most one data unit.
pub proof fn lemma_graph_round_trip_y(y: int, h: int)
    requires
        0 <= y <= NORM_ONE,
        NORM_ONE <= h,
    ensures
        y - 1 <= graph_data_y(graph_ui_y(y, h), h) <= y,
{
    lemma_downscale_upscale(y, h, NORM_ONE as int);
    assert(2 * h - 2 == 1 * h + (h - 2)) by (nonlinear_arith);
    lemma_fundamental_div_mod_converse_div(2 * h - 2, h, 1, h - 2);
    lemma_div_is_ordered(NORM_ONE + h - 2, 2 * h - 2, h);
    assert(graph_data_y(graph_ui_y(y, h), h) == (y * h / (NORM_ONE as int)) * NORM_ONE / h);
}

/// Round trip of the envelope mapping: a data point whose x lies inside the
/// visible window `[s * m, e * m]` and whose y lies in `[0, 1]` comes back
/// from pixel space within one data unit (`1e-4`) on each axis, whenever
/// the widget is wide enough that one pixel-space unit covers at most one
/// data x unit and at least `NORM_ONE` pixel-space units tall.
pub proof fn lemma_ui_round_trip(p: Vec2, range: ZoomRange, max: i64, w: i64, h: i64)
    requires
        range.wf(),
        0 < max <= DOMAIN_LIMIT,
        1 <= w <= SIZE_LIMIT,
        NORM_ONE <= h <= SIZE_LIMIT,
        p.wf_data(max as int),
        range.start * max <= p.x * NORM_ONE <= range.end * max,
        span_of(range.start as int, range.end as int, max as int) <= w * (NORM_ONE - 1),
    ensures
        ({
            let s = range.start as int;
            let e = range.end as int;
            let m = max as int;
            let back_x = graph_data_x(graph_ui_x(p.x as int, s, e, m, w as int), s, e, m, w as int);
            let back_y = graph_data_y(graph_ui_y(p.y as int, h as int), h as int);
            &&& p.x - 1 <= back_x <= p.x
            &&& p.y - 1 <= back_y <= p.y
        }),
{
    lemma_graph_round_trip_x(p.x as int, range.start as int, range.end as int, max as int, w as int);
    lemma_graph_round_trip_y(p.y as int, h as int);
}

/// Round trip of the pad mapping: a data point of the fixed domain
/// `[-1, 1]` on each axis comes back from pixel space within one data
/// unit, on a widget of at least `2 * NORM_ONE` pixel-space units
/// (200 pixels) a side. The x direction rounds down, the inverted y
/// direction rounds up.
pub proof fn lemma_pad_round_trip(p: Vec2, bounds: Bounds)
    requires
        p.wf_pad(),
        bounds.wf(),
        2 * NORM_ONE <= bounds.w,
        2 * NORM_ONE <= bounds.h,
    ensures
        ({
            let back_x = pad_data_x(
                pad_ui_x(p.x as int, bounds.x as int, bounds.w as int),
                bounds.x as int,
                bounds.w as int,
            );
            let back_y = pad_data_y(
                pad_ui_y(p.y as int, bounds.y as int, bounds.h as int),
                bounds.y as int,
                bounds.h as int,
            );
            &&& p.x - 1 <= back_x <= p.x
            &&& p.y <= back_y <= p.y + 1
        }),
{
    let d = 2 * (NORM_ONE as int);
    let w = bounds.w as int;
    let h = bounds.h as int;
    lemma_downscale_upscale(p.x + NORM_ONE, w, d);
    lemma_downscale_upscale(NORM_ONE - p.y, h, d);
    assert(2 * w - 1 == 1 * w + (w - 1)) by (nonlinear_arith);
    lemma_fundamental_div_mod_converse_div(2 * w - 1, w, 1, w - 1);
    lemma_div_is_ordered(d + w - 2, 2 * w - 1, w);
    assert(2 * h - 1 == 1 * h + (h - 1)) by (nonlinear_arith);
    lemma_fundamental_div_mod_converse_div(2 * h - 1, h, 1, h - 1);
    lemma_div_is_ordered(d + h - 2, 2 * h - 1, h);
}

impl Bounds {
    /// Absolute pixel position of the pad data point `p` on these bounds:
    /// `[-1, 1]` on each axis maps onto the widget, y inverted.
    pub fn map_data_point(&self, p: Vec2) -> (r: Vec2)
        requires
            self.wf(),
            p.wf_pad(),
        ensures
            r.x == pad_ui_x(p.x as int, self.x as int, self.w as int),
            r.y == pad_ui_y(p.y as int, self.y as int, self.h as int),
            self.x <= r.x <= self.x + self.w,
            self.y <= r.y <= self.y + self.h,
    {
        proof {
            assert(0 <= (p.x + NORM_ONE) * self.w <= (2 * NORM_ONE) * self.w
                && (2 * NORM_ONE) * self.w <= 0x2000_0000_0000_0000
                && 0 <= (NORM_ONE - p.y) * self.h <= (2 * NORM_ONE) * self.h
                && (2 * NORM_ONE) * self.h <= 0x2000_0000_0000_0000) by (nonlinear_arith)
                requires
                    -NORM_ONE <= p.x <= NORM_ONE,
                    -NORM_ONE <= p.y <= NORM_ONE,
                    1 <= self.w <= SIZE_LIMIT,
                    1 <= self.h <= SIZE_LIMIT,
            ;
            lemma_div_magnitude((p.x + NORM_ONE) * self.w, 2 * NORM_ONE);
            lemma_div_magnitude((NORM_ONE - p.y) * self.h, 2 * NORM_ONE);
            lemma_div_is_ordered((p.x + NORM_ONE) * self.w, (2 * NORM_ONE) * self.w, 2 * NORM_ONE);
            lemma_div_is_ordered((NORM_ONE - p.y) * self.h, (2 * NORM_ONE) * self.h, 2 * NORM_ONE);
            lemma_div_multiples_vanish(self.w as int, 2 * NORM_ONE);
            lemma_div_multiples_vanish(self.h as int, 2 * NORM_ONE);
        }
        let px: i64 = self.x + div_floor((p.x + NORM_ONE) * self.w, 2 * NORM_ONE);
        let py: i64 = self.y + div_floor((NORM_ONE - p.y) * self.h, 2 * NORM_ONE);
        Vec2 { x: px, y: py }
    }

    /// Pad data position of the absolute pixel position `cursor`: the
    /// inverse direction of [`map_data_point`].
    pub fn map_ui_point(&self, cursor: Vec2) -> (r: Vec2)
        requires
            self.wf(),
            cursor.wf_cursor(),
        ensures
            r.x == pad_data_x(cursor.x as int, self.x as int, self.w as int),
            r.y == pad_data_y(cursor.y as int, self.y as int, self.h as int),
    {
        proof {
            assert(-0x2000_0000_0000_0000 <= (cursor.x - self.x) * (2 * NORM_ONE)
                <= 0x2000_0000_0000_0000
                && -0x2000_0000_0000_0000 <= (cursor.y - self.y) * (2 * NORM_ONE)
                <= 0x2000_0000_0000_0000) by (nonlinear_arith)
                requires
                    -PIX_LIMIT <= cursor.x <= PIX_LIMIT,
                    -PIX_LIMIT <= cursor.y <= PIX_LIMIT,
                    -PIX_LIMIT <= self.x <= PIX_LIMIT,
                    -PIX_LIMIT <= self.y <= PIX_LIMIT,
            ;
            lemma_div_magnitude((cursor.x - self.x) * (2 * NORM_ONE), self.w as int);
            lemma_div_magnitude((cursor.y - self.y) * (2 * NORM_ONE), self.h as int);
        }
        let xw: i64 = div_floor((cursor.x - self.x) * (2 * NORM_ONE), self.w) - NORM_ONE;
        let yw: i64 = NORM_ONE - div_floor((cursor.y - self.y) * (2 * NORM_ONE), self.h);
        Vec2 { x: xw, y: yw }
    }
}

} // verus!
