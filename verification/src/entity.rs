//! Entities and their components: position, half-extents, velocity, tag.
//!
//! Positions are in milliunits, velocities in units/s. The boundary clamp
//! that keeps every entity inside the playfield lives here too.

use vstd::prelude::*;
use crate::config::{CfgModel, Config, VEL_LIMIT};

verus! {

/// The closed set of entity roles. At most one per entity, fixed at spawn.
#[derive(Clone, Copy, Debug, PartialEq, Eq, Structural)]
pub enum Tag {
    Player,
    Recycle,
    Generic,
}

/// A world position, milliunits. Only x and y are simulated; the original's
/// z coordinate is a fixed draw-order hint and is not part of the core.
#[derive(Clone, Copy, Debug, PartialEq, Eq, Structural)]
pub struct Pos {
    pub x: i64,
    pub y: i64,
}

/// Axis-aligned half-extents of a sprite, milliunits. Never rotates.
#[derive(Clone, Copy, Debug, PartialEq, Eq, Structural)]
pub struct Extent {
    pub hw: i64,
    pub hh: i64,
}

/// A velocity, world units per second.
#[derive(Clone, Copy, Debug, PartialEq, Eq, Structural)]
pub struct Vel {
    pub x: i64,
    pub y: i64,
}

/// One simulated entity: exactly one position, one size, one velocity, one tag.
#[derive(Clone, Copy, Debug, PartialEq, Eq, Structural)]
pub struct Entity {
    pub pos: Pos,
    pub ext: Extent,
    pub vel: Vel,
    pub tag: Tag,
}

/// Mathematical model of an entity: the same components over `int`.
pub ghost struct EntityModel {
    pub x: int,
    pub y: int,
    pub hw: int,
    pub hh: int,
    pub vx: int,
    pub vy: int,
    pub tag: Tag,
}

impl View for Entity {
    type V = EntityModel;

    open spec fn view(&self) -> EntityModel {
        EntityModel {
            x: self.pos.x as int,
            y: self.pos.y as int,
            hw: self.ext.hw as int,
            hh: self.ext.hh as int,
            vx: self.vel.x as int,
            vy: self.vel.y as int,
            tag: self.tag,
        }
    }
}

/// `v` clamped into `[lo, hi]`.
pub open spec fn clamp_int(v: int, lo: int, hi: int) -> int {
    if v < lo {
        lo
    } else if v > hi {
        hi
    } else {
        v
    }
}

/// Lowest x position whose sprite of half-width `hw` stays inside the playfield.
pub open spec fn x_lo(c: CfgModel, hw: int) -> int {
    -c.x_bound + hw
}

/// Highest such x position.
pub open spec fn x_hi(c: CfgModel, hw: int) -> int {
    c.x_bound - hw
}

/// Lowest y position whose sprite of half-height `hh` stays inside the playfield.
pub open spec fn y_lo(c: CfgModel, hh: int) -> int {
    -c.y_bound + hh
}

/// Highest such y position.
pub open spec fn y_hi(c: CfgModel, hh: int) -> int {
    c.y_bound - hh
}

/// The entity's box lies inside the playfield.
pub open spec fn in_bounds(e: EntityModel, c: CfgModel) -> bool {
    &&& x_lo(c, e.hw) <= e.x <= x_hi(c, e.hw)
    &&& y_lo(c, e.hh) <= e.y <= y_hi(c, e.hh)
}

/// A well-formed entity: extents fit the playfield, velocity components are
/// within the saturation cap, and the position is in bounds.
pub open spec fn entity_wf(e: EntityModel, c: CfgModel) -> bool {
    &&& 0 <= e.hw <= c.x_bound
    &&& 0 <= e.hh <= c.y_bound
    &&& -VEL_LIMIT <= e.vx <= VEL_LIMIT
    &&& -VEL_LIMIT <= e.vy <= VEL_LIMIT
    &&& in_bounds(e, c)
}

/// Clamping a value already inside `[lo, hi]` changes nothing.
pub proof fn lemma_clamp_in_range_is_noop(v: int, lo: int, hi: int)
    requires
        lo <= v <= hi,
    ensures
        clamp_int(v, lo, hi) == v,
{
}

/// `v` clamped into `[lo, hi]`.
pub fn clamp_i64(v: i64, lo: i64, hi: i64) -> (r: i64)
    requires
        lo <= hi,
    ensures
        r as int == clamp_int(v as int, lo as int, hi as int),
{
    if v < lo {
        lo
    } else if v > hi {
        hi
    } else {
        v
    }
}

/// A position clamped into the playfield for a sprite of the given extents:
/// each coordinate is moved to the nearest point of the allowed interval.
pub fn clamp_pos(p: Pos, ext: &Extent, cfg: &Config) -> (r: Pos)
    requires
        cfg@.wf(),
        0 <= ext.hw <= cfg.x_bound,
        0 <= ext.hh <= cfg.y_bound,
    ensures
        r.x as int == clamp_int(p.x as int, x_lo(cfg@, ext.hw as int), x_hi(cfg@, ext.hw as int)),
        r.y as int == clamp_int(p.y as int, y_lo(cfg@, ext.hh as int), y_hi(cfg@, ext.hh as int)),
{
    Pos {
        x: clamp_i64(p.x, -cfg.x_bound + ext.hw, cfg.x_bound - ext.hw),
        y: clamp_i64(p.y, -cfg.y_bound + ext.hh, cfg.y_bound - ext.hh),
    }
}

/// Clamping the position of an entity that is already in bounds is a no-op.
pub proof fn lemma_clamp_pos_noop(e: EntityModel, c: CfgModel)
    requires
        c.wf(),
        in_bounds(e, c),
    ensures
        clamp_int(e.x, x_lo(c, e.hw), x_hi(c, e.hw)) == e.x,
        clamp_int(e.y, y_lo(c, e.hh), y_hi(c, e.hh)) == e.y,
{
}

} // verus!
