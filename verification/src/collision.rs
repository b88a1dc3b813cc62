//! The collision primitive: directional overlap between two axis-aligned
//! rectangular extents.
//!
//! `collide(a, b)` classifies, from the first box's point of view, which of
//! its edges the second box struck: the returned side names the edge of A
//! that B penetrated, chosen by the axis of smallest penetration, with ties
//! broken toward the horizontal axis. Touching boxes do not collide; a B box
//! lying entirely within A is `Inside`.

use vstd::prelude::*;
use crate::config::COORD_LIMIT;
use crate::entity::{Extent, Pos};

verus! {

/// Which edge of the first box the second box struck, or `Inside` when the
/// second box lies entirely within the first.
#[derive(Clone, Copy, Debug, PartialEq, Eq, Structural)]
pub enum Side {
    Left,
    Right,
    Top,
    Bottom,
    Inside,
}

/// Mathematical model of an axis-aligned box: center and half-extents.
pub ghost struct BoxModel {
    pub x: int,
    pub y: int,
    pub hw: int,
    pub hh: int,
}

/// Length of the boxes' common span on the x axis; positive exactly when the
/// open x intervals intersect.
pub open spec fn overlap_x(a: BoxModel, b: BoxModel) -> int {
    let hi = if a.x + a.hw <= b.x + b.hw {
        a.x + a.hw
    } else {
        b.x + b.hw
    };
    let lo = if a.x - a.hw >= b.x - b.hw {
        a.x - a.hw
    } else {
        b.x - b.hw
    };
    hi - lo
}

/// Length of the boxes' common span on the y axis.
pub open spec fn overlap_y(a: BoxModel, b: BoxModel) -> int {
    let hi = if a.y + a.hh <= b.y + b.hh {
        a.y + a.hh
    } else {
        b.y + b.hh
    };
    let lo = if a.y - a.hh >= b.y - b.hh {
        a.y - a.hh
    } else {
        b.y - b.hh
    };
    hi - lo
}

/// The second box lies entirely within the first.
pub open spec fn within(a: BoxModel, b: BoxModel) -> bool {
    &&& a.x - a.hw <= b.x - b.hw
    &&& b.x + b.hw <= a.x + a.hw
    &&& a.y - a.hh <= b.y - b.hh
    &&& b.y + b.hh <= a.y + a.hh
}

/// The collision classification. `None` when the boxes do not overlap on
/// both axes; `Inside` when B is entirely within A; otherwise the side is
/// taken from the axis of smaller penetration (ties prefer the horizontal
/// axis) and the sign of B's center offset from A's on that axis (an offset
/// of zero counts toward `Right` or `Top`).
pub open spec fn spec_collide(a: BoxModel, b: BoxModel) -> Option<Side> {
    if overlap_x(a, b) <= 0 || overlap_y(a, b) <= 0 {
        None
    } else if within(a, b) {
        Some(Side::Inside)
    } else if overlap_x(a, b) <= overlap_y(a, b) {
        if b.x < a.x {
            Some(Side::Left)
        } else {
            Some(Side::Right)
        }
    } else {
        if b.y < a.y {
            Some(Side::Bottom)
        } else {
            Some(Side::Top)
        }
    }
}

/// The box of a position and an extent.
pub open spec fn box_model(p: Pos, e: Extent) -> BoxModel {
    BoxModel { x: p.x as int, y: p.y as int, hw: e.hw as int, hh: e.hh as int }
}

/// Directional overlap between two boxes: exactly `spec_collide` on their
/// models. Pure and total over coordinates within the fixed-point caps.
pub fn collide(a_pos: Pos, a_ext: &Extent, b_pos: Pos, b_ext: &Extent) -> (r: Option<Side>)
    requires
        -COORD_LIMIT <= a_pos.x <= COORD_LIMIT,
        -COORD_LIMIT <= a_pos.y <= COORD_LIMIT,
        -COORD_LIMIT <= b_pos.x <= COORD_LIMIT,
        -COORD_LIMIT <= b_pos.y <= COORD_LIMIT,
        0 <= a_ext.hw <= COORD_LIMIT,
        0 <= a_ext.hh <= COORD_LIMIT,
        0 <= b_ext.hw <= COORD_LIMIT,
        0 <= b_ext.hh <= COORD_LIMIT,
    ensures
        r == spec_collide(box_model(a_pos, *a_ext), box_model(b_pos, *b_ext)),
{
    let a_min_x: i64 = a_pos.x - a_ext.hw;
    let a_max_x: i64 = a_pos.x + a_ext.hw;
    let a_min_y: i64 = a_pos.y - a_ext.hh;
    let a_max_y: i64 = a_pos.y + a_ext.hh;
    let b_min_x: i64 = b_pos.x - b_ext.hw;
    let b_max_x: i64 = b_pos.x + b_ext.hw;
    let b_min_y: i64 = b_pos.y - b_ext.hh;
    let b_max_y: i64 = b_pos.y + b_ext.hh;
    let ox: i64 = (if a_max_x <= b_max_x { a_max_x } else { b_max_x })
        - (if a_min_x >= b_min_x { a_min_x } else { b_min_x });
    let oy: i64 = (if a_max_y <= b_max_y { a_max_y } else { b_max_y })
        - (if a_min_y >= b_min_y { a_min_y } else { b_min_y });
    if ox <= 0 || oy <= 0 {
        None
    } else if a_min_x <= b_min_x && b_max_x <= a_max_x && a_min_y <= b_min_y && b_max_y <= a_max_y {
        Some(Side::Inside)
    } else if ox <= oy {
        if b_pos.x < a_pos.x {
            Some(Side::Left)
        } else {
            Some(Side::Right)
        }
    } else {
        if b_pos.y < a_pos.y {
            Some(Side::Bottom)
        } else {
            Some(Side::Top)
        }
    }
}

/// Non-overlapping boxes never collide: if the boxes are separated (or only
/// touching) on either axis, the classification is `None`.
pub proof fn lemma_separated_is_none(a: BoxModel, b: BoxModel)
    requires
        a.x + a.hw <= b.x - b.hw || b.x + b.hw <= a.x - a.hw || a.y + a.hh <= b.y - b.hh || b.y
            + b.hh <= a.y - a.hh,
    ensures
        spec_collide(a, b) is None,
{
}

/// A box with positive extents lying entirely within the first box (its
/// center then contained in the first) is classified `Inside`.
pub proof fn lemma_within_is_inside(a: BoxModel, b: BoxModel)
    requires
        0 < b.hw,
        0 < b.hh,
        within(a, b),
    ensures
        spec_collide(a, b) == Some(Side::Inside),
{
}

/// When both axes overlap, B is not within A, and the y penetration is
/// strictly smaller than the x penetration, the side comes from the vertical
/// axis: `Top` or `Bottom`, never `Left` or `Right`.
pub proof fn lemma_smaller_y_penetration_is_vertical(a: BoxModel, b: BoxModel)
    requires
        overlap_x(a, b) > 0,
        overlap_y(a, b) > 0,
        overlap_y(a, b) < overlap_x(a, b),
        !within(a, b),
    ensures
        spec_collide(a, b) == Some(Side::Top) || spec_collide(a, b) == Some(Side::Bottom),
{
}

/// The given box reflected across the y axis (x negated).
pub open spec fn reflect_h(b: BoxModel) -> BoxModel {
    BoxModel { x: -b.x, y: b.y, hw: b.hw, hh: b.hh }
}

/// The given box reflected across the x axis (y negated).
pub open spec fn reflect_v(b: BoxModel) -> BoxModel {
    BoxModel { x: b.x, y: -b.y, hw: b.hw, hh: b.hh }
}

/// `Left` and `Right` exchanged; every other outcome unchanged.
pub open spec fn swap_lr(r: Option<Side>) -> Option<Side> {
    match r {
        Some(Side::Left) => Some(Side::Right),
        Some(Side::Right) => Some(Side::Left),
        _ => r,
    }
}

/// `Top` and `Bottom` exchanged; every other outcome unchanged.
pub open spec fn swap_tb(r: Option<Side>) -> Option<Side> {
    match r {
        Some(Side::Top) => Some(Side::Bottom),
        Some(Side::Bottom) => Some(Side::Top),
        _ => r,
    }
}

/// Reflecting both boxes across the y axis swaps `Left` and `Right` and
/// leaves every other classification unchanged, provided the centers do not
/// share an x coordinate (at equal centers the horizontal tie-break is fixed
/// and cannot flip).
pub proof fn lemma_reflect_h_swaps_left_right(a: BoxModel, b: BoxModel)
    requires
        a.x != b.x,
    ensures
        spec_collide(reflect_h(a), reflect_h(b)) == swap_lr(spec_collide(a, b)),
{
}

/// Reflecting both boxes across the x axis swaps `Top` and `Bottom` and
/// leaves every other classification unchanged, provided the centers do not
/// share a y coordinate.
pub proof fn lemma_reflect_v_swaps_top_bottom(a: BoxModel, b: BoxModel)
    requires
        a.y != b.y,
    ensures
        spec_collide(reflect_v(a), reflect_v(b)) == swap_tb(spec_collide(a, b)),
{
}

} // verus!
