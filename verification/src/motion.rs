//! The movement pass: per-entity integration from input state.
//!
//! Order of operations, reproduced exactly: input bias (player only) ->
//! gravity -> horizontal speed clamp -> integration -> friction -> boundary
//! clamp. The jump impulse applies only while the player's pre-move height is
//! at or below the grounded threshold.

use vstd::prelude::*;
use crate::config::{CfgModel, Config, DT_LIMIT, VEL_LIMIT};
use crate::entity::{clamp_i64, clamp_int, entity_wf, in_bounds, x_hi, x_lo, y_hi, y_lo, Entity,
    EntityModel, Pos, Tag, Vel};

verus! {

/// The logical input state one tick consumes: the three keys, polled.
#[derive(Clone, Copy, Debug, PartialEq, Eq, Structural)]
pub struct InputState {
    pub left: bool,
    pub right: bool,
    pub jump: bool,
}

impl InputState {
    /// No key held.
    pub fn released() -> (r: InputState)
        ensures
            r == (InputState { left: false, right: false, jump: false }),
    {
        InputState { left: false, right: false, jump: false }
    }
}

/// A velocity component saturated into `[-VEL_LIMIT, VEL_LIMIT]`.
pub open spec fn vel_sat(v: int) -> int {
    clamp_int(v, -VEL_LIMIT as int, VEL_LIMIT as int)
}

/// The friction scale: three quarters of the velocity, truncated toward zero.
pub open spec fn fric(v: int) -> int {
    if v >= 0 {
        (v * 3) / 4
    } else {
        -((-v * 3) / 4)
    }
}

/// Friction never grows a velocity's magnitude and keeps its sign.
pub proof fn lemma_fric_bounds(v: int)
    requires
        -VEL_LIMIT <= v <= VEL_LIMIT,
    ensures
        0 <= v ==> 0 <= fric(v) <= v,
        v < 0 ==> v <= fric(v) <= 0,
{
    if 0 <= v {
        assert(v * 3 <= v * 4);
        vstd::arithmetic::div_mod::lemma_div_is_ordered(0, v * 3, 4);
        vstd::arithmetic::div_mod::lemma_div_is_ordered(v * 3, v * 4, 4);
        vstd::arithmetic::div_mod::lemma_div_multiples_vanish(v, 4);
    } else {
        assert(-v * 3 <= -v * 4);
        vstd::arithmetic::div_mod::lemma_div_is_ordered(0, -v * 3, 4);
        vstd::arithmetic::div_mod::lemma_div_is_ordered(-v * 3, -v * 4, 4);
        vstd::arithmetic::div_mod::lemma_div_multiples_vanish(-v, 4);
    }
}

/// A velocity sum saturated into the cap.
pub(crate) fn vel_add(v: i64, d: i64) -> (r: i64)
    requires
        -VEL_LIMIT <= v <= VEL_LIMIT,
        -VEL_LIMIT <= d <= VEL_LIMIT,
    ensures
        r as int == vel_sat(v + d),
        -VEL_LIMIT <= r <= VEL_LIMIT,
{
    clamp_i64(v + d, -VEL_LIMIT, VEL_LIMIT)
}

/// Three quarters of the velocity, truncated toward zero.
fn friction(v: i64) -> (r: i64)
    requires
        -VEL_LIMIT <= v <= VEL_LIMIT,
    ensures
        r as int == fric(v as int),
        -VEL_LIMIT <= r <= VEL_LIMIT,
{
    proof {
        lemma_fric_bounds(v as int);
    }
    if v >= 0 {
        (v * 3) / 4
    } else {
        -((-v * 3) / 4)
    }
}

/// One movement-pass step of one entity. The player's velocity is first
/// biased by the held keys (left and right each add a fixed horizontal
/// acceleration; jump adds the upward impulse only while grounded); every
/// entity then receives gravity, has its horizontal speed clamped,
/// integrates position by velocity times elapsed time, scales its horizontal
/// velocity by friction, and is clamped into the playfield.
pub open spec fn spec_move_one(e: EntityModel, c: CfgModel, inp: InputState, dt: int) -> EntityModel {
    let vx_in = if e.tag == Tag::Player {
        let v1 = if inp.left {
            vel_sat(e.vx - c.x_accel)
        } else {
            e.vx
        };
        if inp.right {
            vel_sat(v1 + c.x_accel)
        } else {
            v1
        }
    } else {
        e.vx
    };
    let vy_in = if e.tag == Tag::Player && inp.jump && e.y <= c.ground_y {
        vel_sat(e.vy + c.jump_accel)
    } else {
        e.vy
    };
    let vy1 = vel_sat(vy_in - c.grav);
    let vx1 = clamp_int(vx_in, -c.x_max_vel, c.x_max_vel);
    EntityModel {
        x: clamp_int(e.x + vx1 * dt, x_lo(c, e.hw), x_hi(c, e.hw)),
        y: clamp_int(e.y + vy1 * dt, y_lo(c, e.hh), y_hi(c, e.hh)),
        hw: e.hw,
        hh: e.hh,
        vx: fric(vx1),
        vy: vy1,
        tag: e.tag,
    }
}

/// The movement step keeps an entity well formed: extents and tag unchanged,
/// velocity within the cap, position in bounds.
pub proof fn lemma_move_one_wf(e: EntityModel, c: CfgModel, inp: InputState, dt: int)
    requires
        c.wf(),
        entity_wf(e, c),
        0 <= dt <= DT_LIMIT,
    ensures
        entity_wf(spec_move_one(e, c, inp, dt), c),
        in_bounds(spec_move_one(e, c, inp, dt), c),
        spec_move_one(e, c, inp, dt).hw == e.hw,
        spec_move_one(e, c, inp, dt).hh == e.hh,
        spec_move_one(e, c, inp, dt).tag == e.tag,
{
    let r = spec_move_one(e, c, inp, dt);
    let vx1 = clamp_int(
        if e.tag == Tag::Player {
            let v1 = if inp.left {
                vel_sat(e.vx - c.x_accel)
            } else {
                e.vx
            };
            if inp.right {
                vel_sat(v1 + c.x_accel)
            } else {
                v1
            }
        } else {
            e.vx
        },
        -c.x_max_vel,
        c.x_max_vel,
    );
    lemma_fric_bounds(vx1);
}

/// Product of a capped velocity and a bounded elapsed time stays far inside
/// the machine range.
pub(crate) proof fn lemma_vel_dt_product(v: int, dt: int)
    requires
        -VEL_LIMIT <= v <= VEL_LIMIT,
        0 <= dt <= DT_LIMIT,
    ensures
        -(VEL_LIMIT as int) * (DT_LIMIT as int) <= v * dt <= (VEL_LIMIT as int) * (DT_LIMIT as int),
{
    assert(-(VEL_LIMIT as int) * (DT_LIMIT as int) <= v * dt <= (VEL_LIMIT as int) * (
    DT_LIMIT as int)) by (nonlinear_arith)
        requires
            -VEL_LIMIT <= v <= VEL_LIMIT,
            0 <= dt <= DT_LIMIT,
    ;
}

/// One movement-pass step of one entity: exactly `spec_move_one`.
pub fn move_entity(e: &Entity, cfg: &Config, inp: InputState, dt: i64) -> (r: Entity)
    requires
        cfg@.wf(),
        entity_wf(e@, cfg@),
        0 <= dt <= DT_LIMIT,
    ensures
        r@ == spec_move_one(e@, cfg@, inp, dt as int),
        entity_wf(r@, cfg@),
{
    let mut vx: i64 = e.vel.x;
    let mut vy: i64 = e.vel.y;
    if matches!(e.tag, Tag::Player) {
        if inp.left {
            vx = vel_add(vx, -cfg.x_accel);
        }
        if inp.right {
            vx = vel_add(vx, cfg.x_accel);
        }
        if inp.jump && e.pos.y <= cfg.ground_y {
            vy = vel_add(vy, cfg.jump_accel);
        }
    }
    vy = vel_add(vy, -cfg.grav);
    vx = clamp_i64(vx, -cfg.x_max_vel, cfg.x_max_vel);
    proof {
        lemma_vel_dt_product(vx as int, dt as int);
        lemma_vel_dt_product(vy as int, dt as int);
        lemma_move_one_wf(e@, cfg@, inp, dt as int);
    }
    let pos = crate::entity::clamp_pos(
        Pos { x: e.pos.x + vx * dt, y: e.pos.y + vy * dt },
        &e.ext,
        cfg,
    );
    let vx_out: i64 = friction(vx);
    Entity { pos, ext: e.ext, vel: Vel { x: vx_out, y: vy }, tag: e.tag }
}

} // verus!
