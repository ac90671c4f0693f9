//! Hover hit-testing: which point, if any, is under the pointer.
//!
//! A point counts as hovered when its squared pixel distance to the cursor
//! is at most `HOVER_RADIUS` squared, inclusive. Among hovered points the
//! closest wins; on equal distances the earliest index wins.

use vstd::prelude::*;
use crate::geom::{dist_sq, within_hover, within_hover_exec, Vec2, HOVER_RADIUS};

verus! {

/// What a correct hover selection is: `r` is `Some(i)` exactly when some
/// point of `ui_points` lies within the hover radius of `cursor`, and then
/// `i` is a closest such point, with ties broken to the lowest index.
pub open spec fn is_hover_choice(ui_points: Seq<Vec2>, cursor: Vec2, r: Option<usize>) -> bool {
    match r {
        Option::Some(i) => {
            &&& 0 <= i < ui_points.len()
            &&& within_hover(ui_points[i as int], cursor)
            &&& forall|j: int|
                0 <= j < ui_points.len() && within_hover(#[trigger] ui_points[j], cursor)
                    ==> dist_sq(ui_points[i as int], cursor) <= dist_sq(ui_points[j], cursor)
            &&& forall|j: int|
                0 <= j < i && within_hover(#[trigger] ui_points[j], cursor)
                    ==> dist_sq(ui_points[i as int], cursor) < dist_sq(ui_points[j], cursor)
        },
        Option::None => forall|j: int|
            0 <= j < ui_points.len() ==> !within_hover(#[trigger] ui_points[j], cursor),
    }
}

/// The squared distance from `p` to `cursor` when `p` is within the hover
/// radius, and `None` otherwise.
fn hover_dist(p: Vec2, cursor: Vec2) -> (r: Option<i64>)
    requires
        p.wf_ui(),
        cursor.wf_cursor(),
    ensures
        match r {
            Option::Some(d) => within_hover(p, cursor) && d == dist_sq(p, cursor),
            Option::None => !within_hover(p, cursor),
        },
{
    if within_hover_exec(p, cursor) {
        let dx: i64 = p.x - cursor.x;
        let dy: i64 = p.y - cursor.y;
        proof {
            assert(-HOVER_RADIUS <= dx <= HOVER_RADIUS && -HOVER_RADIUS <= dy <= HOVER_RADIUS
                && 0 <= dx * dx + dy * dy) by (nonlinear_arith)
                requires
                    dx * dx + dy * dy <= HOVER_RADIUS * HOVER_RADIUS,
                    HOVER_RADIUS == 1600,
            ;
            assert(dx * dx <= HOVER_RADIUS * HOVER_RADIUS && dy * dy <= HOVER_RADIUS
                * HOVER_RADIUS) by (nonlinear_arith)
                requires
                    -HOVER_RADIUS <= dx <= HOVER_RADIUS,
                    -HOVER_RADIUS <= dy <= HOVER_RADIUS,
            ;
        }
        Some(dx * dx + dy * dy)
    } else {
        None
    }
}

/// The hover target for `cursor` among the pixel positions `ui_points`:
/// the closest point within the hover radius, earliest index on ties, or
/// `None` when every point is out of reach.
pub fn closest_within_radius(ui_points: &Vec<Vec2>, cursor: Vec2) -> (res: Option<usize>)
    requires
        cursor.wf_cursor(),
        forall|j: int| 0 <= j < ui_points@.len() ==> (#[trigger] ui_points@[j]).wf_ui(),
    ensures
        is_hover_choice(ui_points@, cursor, res),
{
    let mut best: Option<usize> = None;
    let mut best_d: i64 = 0;
    let mut idx: usize = 0;
    while idx < ui_points.len()
        invariant
            0 <= idx <= ui_points@.len(),
            cursor.wf_cursor(),
            forall|j: int| 0 <= j < ui_points@.len() ==> (#[trigger] ui_points@[j]).wf_ui(),
            match best {
                Option::Some(b) => {
                    &&& 0 <= b < idx
                    &&& within_hover(ui_points@[b as int], cursor)
                    &&& best_d == dist_sq(ui_points@[b as int], cursor)
                    &&& forall|j: int|
                        0 <= j < idx && within_hover(#[trigger] ui_points@[j], cursor)
                            ==> best_d <= dist_sq(ui_points@[j], cursor)
                    &&& forall|j: int|
                        0 <= j < b && within_hover(#[trigger] ui_points@[j], cursor)
                            ==> best_d < dist_sq(ui_points@[j], cursor)
                },
                Option::None => forall|j: int|
                    0 <= j < idx ==> !within_hover(#[trigger] ui_points@[j], cursor),
            },
        decreases ui_points@.len() - idx,
    {
        let hd = hover_dist(ui_points[idx], cursor);
        match hd {
            Option::Some(d) => {
                let take: bool = match best {
                    Option::Some(_) => d < best_d,
                    Option::None => true,
                };
                if take {
                    best = Some(idx);
                    best_d = d;
                }
            },
            Option::None => {},
        }
        idx = idx + 1;
    }
    best
}

} // verus!
