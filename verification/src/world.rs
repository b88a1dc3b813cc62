//! The entity store and the per-tick simulation loop.
//!
//! A tick runs three phases in order: the movement pass over every entity,
//! the all-pairs collision and resolution pass, and the drain of the spawn
//! event queue. The pair sweep walks index pairs `(i, j)` with `i < j` over
//! the dense entity list and evaluates both orderings of each pair, mutating
//! the second member of each ordering in place immediately; spawn events are
//! only queued during the sweep and applied afterwards, so the sweep always
//! sees the entity set as it stood when the tick began.

use vstd::prelude::*;
use vstd::pervasive::VecAdditionalExecFns;
use crate::collision::{spec_collide, BoxModel, collide, Side};
use crate::config::{CfgModel, Config, DT_LIMIT, FOLDER_HH, FOLDER_HW, PLAYER_HH, PLAYER_HW,
    PLAYER_START_X, PLAYER_START_Y, RECYCLE_HH, RECYCLE_HW, RECYCLE_START_X, RECYCLE_START_Y,
    VEL_LIMIT};
use crate::entity::{clamp_int, clamp_pos, entity_wf, in_bounds, x_hi, x_lo, y_hi, y_lo, Entity,
    EntityModel, Extent, Pos, Tag, Vel};
use crate::motion::{lemma_move_one_wf, lemma_vel_dt_product, move_entity, spec_move_one,
    vel_add, vel_sat, InputState};

verus! {

/// A pending spawn request: the world position the new folder takes.
#[derive(Clone, Copy, Debug, PartialEq, Eq, Structural)]
pub struct SpawnEvent {
    pub pos: Pos,
}

impl View for SpawnEvent {
    type V = (int, int);

    open spec fn view(&self) -> (int, int) {
        (self.pos.x as int, self.pos.y as int)
    }
}

/// The positions carried by a queue of spawn events, in queue order.
pub open spec fn evs_model(s: Seq<SpawnEvent>) -> Seq<(int, int)> {
    s.map_values(|e: SpawnEvent| e@)
}

/// The box of an entity.
pub open spec fn box_of(e: EntityModel) -> BoxModel {
    BoxModel { x: e.x, y: e.y, hw: e.hw, hh: e.hh }
}

/// The velocity of the struck entity after the launch impulse: a fixed
/// magnitude added along the axis named by the side (`Left` pushes +x,
/// `Right` -x, `Top` -y, `Bottom` +y, `Inside` +x as the default push), or
/// unchanged when there was no collision.
pub open spec fn spec_launch_vel(vx: int, vy: int, c: CfgModel, col: Option<Side>) -> (int, int) {
    match col {
        Some(Side::Left) => (vel_sat(vx + c.launch), vy),
        Some(Side::Right) => (vel_sat(vx - c.launch), vy),
        Some(Side::Top) => (vx, vel_sat(vy - c.launch)),
        Some(Side::Bottom) => (vx, vel_sat(vy + c.launch)),
        Some(Side::Inside) => (vel_sat(vx + c.launch), vy),
        None => (vx, vy),
    }
}

/// One ordered pair evaluation of the collision pass, with `a` read-only and
/// `b` resolved: classify the overlap, queue a spawn event carrying `b`'s
/// current position when a Player strikes a Recycle, apply the launch
/// impulse to `b`'s velocity, integrate `b` by its velocity over the elapsed
/// time (collision or not), and clamp `b` into the playfield. Returns the
/// resolved `b` and the optional event position.
pub open spec fn spec_resolve(a: EntityModel, b: EntityModel, c: CfgModel, dt: int) -> (
    EntityModel,
    Option<(int, int)>,
) {
    let col = spec_collide(box_of(a), box_of(b));
    let ev = if col is Some && a.tag == Tag::Player && b.tag == Tag::Recycle {
        Some((b.x, b.y))
    } else {
        None
    };
    let vv = spec_launch_vel(b.vx, b.vy, c, col);
    (
        EntityModel {
            x: clamp_int(b.x + vv.0 * dt, x_lo(c, b.hw), x_hi(c, b.hw)),
            y: clamp_int(b.y + vv.1 * dt, y_lo(c, b.hh), y_hi(c, b.hh)),
            hw: b.hw,
            hh: b.hh,
            vx: vv.0,
            vy: vv.1,
            tag: b.tag,
        },
        ev,
    )
}

/// Both orderings of one unordered pair, in sweep order: `(i, j)` resolves
/// entity `j`, then `(j, i)` resolves entity `i` against the just-updated
/// `j`. Events queue in that order.
pub open spec fn step_pair(
    s: Seq<EntityModel>,
    evs: Seq<(int, int)>,
    i: int,
    j: int,
    c: CfgModel,
    dt: int,
) -> (Seq<EntityModel>, Seq<(int, int)>) {
    let r1 = spec_resolve(s[i], s[j], c, dt);
    let s1 = s.update(j, r1.0);
    let e1 = match r1.1 {
        Some(p) => evs.push(p),
        None => evs,
    };
    let r2 = spec_resolve(s1[j], s1[i], c, dt);
    let s2 = s1.update(i, r2.0);
    let e2 = match r2.1 {
        Some(p) => e1.push(p),
        None => e1,
    };
    (s2, e2)
}

/// The inner sweep: pairs `(i, j)` for this `i`, with `j` running upward.
pub open spec fn sweep_inner(
    s: Seq<EntityModel>,
    evs: Seq<(int, int)>,
    i: int,
    j: int,
    c: CfgModel,
    dt: int,
) -> (Seq<EntityModel>, Seq<(int, int)>)
    decreases s.len() - j,
{
    if j >= s.len() || i < 0 || i >= s.len() || j <= i {
        (s, evs)
    } else {
        let p = step_pair(s, evs, i, j, c, dt);
        sweep_inner(p.0, p.1, i, j + 1, c, dt)
    }
}

/// The outer sweep: `i` running up to the entity count `n` (the count when
/// the pass began; the sweep never changes the length), each `i` with its
/// inner sweep.
pub open spec fn sweep_outer(
    s: Seq<EntityModel>,
    evs: Seq<(int, int)>,
    i: int,
    n: int,
    c: CfgModel,
    dt: int,
) -> (Seq<EntityModel>, Seq<(int, int)>)
    decreases n - i,
{
    if i < 0 || i >= n {
        (s, evs)
    } else {
        let p = sweep_inner(s, evs, i, i + 1, c, dt);
        sweep_outer(p.0, p.1, i + 1, n, c, dt)
    }
}

/// The whole collision and resolution pass over an entity list: the entities
/// after every pair evaluation, and the spawn events queued, in order.
pub open spec fn spec_sweep(s: Seq<EntityModel>, c: CfgModel, dt: int) -> (
    Seq<EntityModel>,
    Seq<(int, int)>,
) {
    sweep_outer(s, Seq::<(int, int)>::empty(), 0, s.len() as int, c, dt)
}

/// The movement pass over an entity list: each entity moved independently.
pub open spec fn spec_move_pass(
    s: Seq<EntityModel>,
    c: CfgModel,
    inp: InputState,
    dt: int,
) -> Seq<EntityModel> {
    s.map_values(|e: EntityModel| spec_move_one(e, c, inp, dt))
}

/// The entity a drained spawn event creates: a Generic folder of the fixed
/// folder size, at rest, at the event's position clamped into the playfield.
pub open spec fn folder_spawned(p: (int, int), c: CfgModel) -> EntityModel {
    EntityModel {
        x: clamp_int(p.0, x_lo(c, FOLDER_HW as int), x_hi(c, FOLDER_HW as int)),
        y: clamp_int(p.1, y_lo(c, FOLDER_HH as int), y_hi(c, FOLDER_HH as int)),
        hw: FOLDER_HW as int,
        hh: FOLDER_HH as int,
        vx: 0,
        vy: 0,
        tag: Tag::Generic,
    }
}

/// Draining the spawn queue appends one folder per event, in queue order.
pub open spec fn spec_drain(
    s: Seq<EntityModel>,
    evs: Seq<(int, int)>,
    c: CfgModel,
) -> Seq<EntityModel> {
    s + evs.map_values(|p: (int, int)| folder_spawned(p, c))
}

/// One whole tick: movement pass, then the pair sweep, then the drain. The
/// second component is the spawn events the tick raised, in order.
pub open spec fn spec_tick(s: Seq<EntityModel>, c: CfgModel, inp: InputState, dt: int) -> (
    Seq<EntityModel>,
    Seq<(int, int)>,
) {
    let moved = spec_move_pass(s, c, inp, dt);
    let swept = spec_sweep(moved, c, dt);
    (spec_drain(swept.0, swept.1, c), swept.1)
}

/// Every entity of the list is well formed.
pub open spec fn world_wf(s: Seq<EntityModel>, c: CfgModel) -> bool {
    forall|k: int| 0 <= k < s.len() ==> entity_wf(#[trigger] s[k], c)
}

/// The entity a `spawn` call adds: the requested components with the
/// position clamped into the playfield.
pub open spec fn spawned_model(
    x: int,
    y: int,
    hw: int,
    hh: int,
    vx: int,
    vy: int,
    tag: Tag,
    c: CfgModel,
) -> EntityModel {
    EntityModel {
        x: clamp_int(x, x_lo(c, hw), x_hi(c, hw)),
        y: clamp_int(y, y_lo(c, hh), y_hi(c, hh)),
        hw: hw,
        hh: hh,
        vx: vx,
        vy: vy,
        tag: tag,
    }
}

/// The player the standard world starts with: at the origin, 30x50, at rest.
pub open spec fn player_start(c: CfgModel) -> EntityModel {
    spawned_model(
        PLAYER_START_X as int,
        PLAYER_START_Y as int,
        PLAYER_HW as int,
        PLAYER_HH as int,
        0,
        0,
        Tag::Player,
        c,
    )
}

/// The recycle bin the standard world starts with: at (50, -290), 37x43, at rest.
pub open spec fn recycle_start(c: CfgModel) -> EntityModel {
    spawned_model(
        RECYCLE_START_X as int,
        RECYCLE_START_Y as int,
        RECYCLE_HW as int,
        RECYCLE_HH as int,
        0,
        0,
        Tag::Recycle,
        c,
    )
}

/// The seed folder the standard world starts with: at the origin, 37x32, at rest.
pub open spec fn folder_seed(c: CfgModel) -> EntityModel {
    spawned_model(0, 0, FOLDER_HW as int, FOLDER_HH as int, 0, 0, Tag::Generic, c)
}

/// Replacing one well-formed entity keeps the list well formed.
proof fn lemma_wf_update(s: Seq<EntityModel>, c: CfgModel, j: int, v: EntityModel)
    requires
        world_wf(s, c),
        0 <= j < s.len(),
        entity_wf(v, c),
    ensures
        world_wf(s.update(j, v), c),
{
    assert forall|k: int| 0 <= k < s.update(j, v).len() implies entity_wf(
        #[trigger] s.update(j, v)[k],
        c,
    ) by {
        if k != j {
            assert(s.update(j, v)[k] == s[k]);
        }
    }
}

/// One ordered pair resolution keeps the struck entity well formed.
proof fn lemma_resolve_wf(a: EntityModel, b: EntityModel, c: CfgModel, dt: int)
    requires
        c.wf(),
        entity_wf(a, c),
        entity_wf(b, c),
        0 <= dt <= DT_LIMIT,
    ensures
        entity_wf(spec_resolve(a, b, c, dt).0, c),
        spec_resolve(a, b, c, dt).0.hw == b.hw,
        spec_resolve(a, b, c, dt).0.hh == b.hh,
        spec_resolve(a, b, c, dt).0.tag == b.tag,
{
}

/// One unordered pair step keeps the list well formed and its length.
proof fn lemma_step_pair_wf(
    s: Seq<EntityModel>,
    evs: Seq<(int, int)>,
    i: int,
    j: int,
    c: CfgModel,
    dt: int,
)
    requires
        c.wf(),
        world_wf(s, c),
        0 <= i < s.len(),
        0 <= j < s.len(),
        i != j,
        0 <= dt <= DT_LIMIT,
    ensures
        step_pair(s, evs, i, j, c, dt).0.len() == s.len(),
        world_wf(step_pair(s, evs, i, j, c, dt).0, c),
{
    let r1 = spec_resolve(s[i], s[j], c, dt);
    let s1 = s.update(j, r1.0);
    lemma_resolve_wf(s[i], s[j], c, dt);
    lemma_wf_update(s, c, j, r1.0);
    let r2 = spec_resolve(s1[j], s1[i], c, dt);
    lemma_resolve_wf(s1[j], s1[i], c, dt);
    lemma_wf_update(s1, c, i, r2.0);
}

/// The inner sweep keeps the list well formed and its length.
proof fn lemma_sweep_inner_wf(
    s: Seq<EntityModel>,
    evs: Seq<(int, int)>,
    i: int,
    j: int,
    c: CfgModel,
    dt: int,
)
    requires
        c.wf(),
        world_wf(s, c),
        0 <= dt <= DT_LIMIT,
    ensures
        sweep_inner(s, evs, i, j, c, dt).0.len() == s.len(),
        world_wf(sweep_inner(s, evs, i, j, c, dt).0, c),
    decreases s.len() - j,
{
    if j >= s.len() || i < 0 || i >= s.len() || j <= i {
    } else {
        let p = step_pair(s, evs, i, j, c, dt);
        lemma_step_pair_wf(s, evs, i, j, c, dt);
        lemma_sweep_inner_wf(p.0, p.1, i, j + 1, c, dt);
    }
}

/// The outer sweep keeps the list well formed and its length.
proof fn lemma_sweep_outer_wf(
    s: Seq<EntityModel>,
    evs: Seq<(int, int)>,
    i: int,
    n: int,
    c: CfgModel,
    dt: int,
)
    requires
        c.wf(),
        world_wf(s, c),
        n == s.len(),
        0 <= dt <= DT_LIMIT,
    ensures
        sweep_outer(s, evs, i, n, c, dt).0.len() == s.len(),
        world_wf(sweep_outer(s, evs, i, n, c, dt).0, c),
    decreases n - i,
{
    if i < 0 || i >= n {
    } else {
        let p = sweep_inner(s, evs, i, i + 1, c, dt);
        lemma_sweep_inner_wf(s, evs, i, i + 1, c, dt);
        lemma_sweep_outer_wf(p.0, p.1, i + 1, n, c, dt);
    }
}

/// The movement pass keeps the list well formed and its length.
proof fn lemma_move_pass_wf(s: Seq<EntityModel>, c: CfgModel, inp: InputState, dt: int)
    requires
        c.wf(),
        world_wf(s, c),
        0 <= dt <= DT_LIMIT,
    ensures
        spec_move_pass(s, c, inp, dt).len() == s.len(),
        world_wf(spec_move_pass(s, c, inp, dt), c),
{
    let r = spec_move_pass(s, c, inp, dt);
    assert forall|k: int| 0 <= k < r.len() implies entity_wf(#[trigger] r[k], c) by {
        lemma_move_one_wf(s[k], c, inp, dt);
    }
}

/// The drain keeps the list well formed; the new folders are well formed too.
proof fn lemma_drain_wf(s: Seq<EntityModel>, evs: Seq<(int, int)>, c: CfgModel)
    requires
        c.wf(),
        world_wf(s, c),
    ensures
        spec_drain(s, evs, c).len() == s.len() + evs.len(),
        world_wf(spec_drain(s, evs, c), c),
{
    let r = spec_drain(s, evs, c);
    assert forall|k: int| 0 <= k < r.len() implies entity_wf(#[trigger] r[k], c) by {
        if k < s.len() {
            assert(r[k] == s[k]);
        } else {
            assert(r[k] == folder_spawned(evs[k - s.len()], c));
        }
    }
}

/// After a whole tick every entity is well formed; in particular every
/// position lies within the playfield bounds
/// `[-x_bound + hw, x_bound - hw] x [-y_bound + hh, y_bound - hh]`.
pub proof fn lemma_tick_in_bounds(s: Seq<EntityModel>, c: CfgModel, inp: InputState, dt: int)
    requires
        c.wf(),
        world_wf(s, c),
        0 <= dt <= DT_LIMIT,
    ensures
        world_wf(spec_tick(s, c, inp, dt).0, c),
        forall|k: int| 0 <= k < spec_tick(s, c, inp, dt).0.len() ==> in_bounds(
            #[trigger] spec_tick(s, c, inp, dt).0[k],
            c,
        ),
{
    let moved = spec_move_pass(s, c, inp, dt);
    lemma_move_pass_wf(s, c, inp, dt);
    let swept = spec_sweep(moved, c, dt);
    lemma_sweep_outer_wf(moved, Seq::<(int, int)>::empty(), 0, moved.len() as int, c, dt);
    lemma_drain_wf(swept.0, swept.1, c);
}

/// The entity store: a dense list of simulated entities. An entity's
/// identity is its index, stable for its whole lifetime (the design has no
/// despawn, a known limitation of the original: spawned folders accumulate).
pub struct World {
    entities: Vec<Entity>,
}

impl View for World {
    type V = Seq<EntityModel>;

    closed spec fn view(&self) -> Seq<EntityModel> {
        self.entities@.map_values(|e: Entity| e@)
    }
}

impl World {
    /// Every entity of the world is well formed for the configuration.
    pub open spec fn wf(&self, c: CfgModel) -> bool {
        world_wf(self@, c)
    }

    /// An empty world.
    pub fn new() -> (w: World)
        ensures
            w@ == Seq::<EntityModel>::empty(),
    {
        let w = World { entities: Vec::new() };
        proof {
            assert(w@ =~= Seq::<EntityModel>::empty());
        }
        w
    }

    /// The number of entities.
    pub fn len(&self) -> (n: usize)
        ensures
            n == self@.len(),
    {
        self.entities.len()
    }

    /// The entity with the given identity.
    pub fn get(&self, id: usize) -> (e: Entity)
        requires
            id < self@.len(),
        ensures
            e@ == self@[id as int],
    {
        self.entities[id]
    }

    /// Creates an entity with the given components, its position clamped
    /// into the playfield, and returns its identity.
    pub fn spawn(&mut self, pos: Pos, ext: Extent, vel: Vel, tag: Tag, cfg: &Config) -> (id: usize)
        requires
            cfg@.wf(),
            0 <= ext.hw <= cfg.x_bound,
            0 <= ext.hh <= cfg.y_bound,
            -VEL_LIMIT <= vel.x <= VEL_LIMIT,
            -VEL_LIMIT <= vel.y <= VEL_LIMIT,
        ensures
            final(self)@ == old(self)@.push(
                spawned_model(
                    pos.x as int,
                    pos.y as int,
                    ext.hw as int,
                    ext.hh as int,
                    vel.x as int,
                    vel.y as int,
                    tag,
                    cfg@,
                ),
            ),
            id == old(self)@.len(),
            old(self).wf(cfg@) ==> final(self).wf(cfg@),
    {
        let id = self.entities.len();
        let p = clamp_pos(pos, &ext, cfg);
        let ghost s0 = self@;
        self.entities.push(Entity { pos: p, ext, vel, tag });
        proof {
            let m = spawned_model(
                pos.x as int,
                pos.y as int,
                ext.hw as int,
                ext.hh as int,
                vel.x as int,
                vel.y as int,
                tag,
                cfg@,
            );
            assert(self@ =~= s0.push(m));
            if world_wf(s0, cfg@) {
                assert forall|k: int| 0 <= k < self@.len() implies entity_wf(
                    #[trigger] self@[k],
                    cfg@,
                ) by {
                    if k < s0.len() {
                        assert(self@[k] == s0[k]);
                    }
                }
            }
        }
        id
    }

    /// The standard starting world: the player at the origin, the recycle
    /// bin at (50, -290), and one seed folder at the origin.
    pub fn standard_start(cfg: &Config) -> (w: World)
        requires
            cfg@.wf(),
        ensures
            w@ =~= seq![player_start(cfg@), recycle_start(cfg@), folder_seed(cfg@)],
            w.wf(cfg@),
    {
        let mut w = World::new();
        w.spawn(
            Pos { x: PLAYER_START_X, y: PLAYER_START_Y },
            Extent { hw: PLAYER_HW, hh: PLAYER_HH },
            Vel { x: 0, y: 0 },
            Tag::Player,
            cfg,
        );
        w.spawn(
            Pos { x: RECYCLE_START_X, y: RECYCLE_START_Y },
            Extent { hw: RECYCLE_HW, hh: RECYCLE_HH },
            Vel { x: 0, y: 0 },
            Tag::Recycle,
            cfg,
        );
        w.spawn(
            Pos { x: 0, y: 0 },
            Extent { hw: FOLDER_HW, hh: FOLDER_HH },
            Vel { x: 0, y: 0 },
            Tag::Generic,
            cfg,
        );
        w
    }

    /// The movement pass: every entity takes one `spec_move_one` step.
    pub fn move_pass(&mut self, cfg: &Config, inp: InputState, dt: i64)
        requires
            old(self).wf(cfg@),
            cfg@.wf(),
            0 <= dt <= DT_LIMIT,
        ensures
            final(self)@ == spec_move_pass(old(self)@, cfg@, inp, dt as int),
            final(self).wf(cfg@),
    {
        let ghost orig = self@;
        let n = self.entities.len();
        let mut k: usize = 0;
        while k < n
            invariant
                k <= n,
                n == self@.len(),
                n == orig.len(),
                cfg@.wf(),
                0 <= dt <= DT_LIMIT,
                world_wf(self@, cfg@),
                forall|t: int| 0 <= t < k ==> #[trigger] self@[t] == spec_move_one(
                    orig[t],
                    cfg@,
                    inp,
                    dt as int,
                ),
                forall|t: int| k <= t < n ==> #[trigger] self@[t] == orig[t],
            decreases n - k,
        {
            let e = self.entities[k];
            assert(e@ == self@[k as int]);
            let ne = move_entity(&e, cfg, inp, dt);
            let ghost s0 = self@;
            self.entities.set(k, ne);
            proof {
                assert(self@ =~= s0.update(k as int, ne@));
                lemma_wf_update(s0, cfg@, k as int, ne@);
            }
            k += 1;
        }
        proof {
            assert(self@ =~= spec_move_pass(orig, cfg@, inp, dt as int));
        }
    }

    /// The collision and resolution pass: every unordered pair of distinct
    /// entities, in both orderings, with in-place resolution; returns the
    /// spawn events queued, in order. No entity is paired with itself.
    pub fn collision_pass(&mut self, cfg: &Config, dt: i64) -> (evs: Vec<SpawnEvent>)
        requires
            old(self).wf(cfg@),
            cfg@.wf(),
            0 <= dt <= DT_LIMIT,
        ensures
            final(self)@ == spec_sweep(old(self)@, cfg@, dt as int).0,
            evs_model(evs@) == spec_sweep(old(self)@, cfg@, dt as int).1,
            final(self).wf(cfg@),
    {
        let ghost orig = self@;
        let mut evs: Vec<SpawnEvent> = Vec::new();
        proof {
            assert(evs_model(evs@) =~= Seq::<(int, int)>::empty());
        }
        let n = self.entities.len();
        let mut i: usize = 0;
        while i < n
            invariant
                i <= n,
                n == self@.len(),
                n == orig.len(),
                cfg@.wf(),
                0 <= dt <= DT_LIMIT,
                world_wf(self@, cfg@),
                sweep_outer(self@, evs_model(evs@), i as int, n as int, cfg@, dt as int)
                    == sweep_outer(orig, Seq::<(int, int)>::empty(), 0, n as int, cfg@, dt as int),
            decreases n - i,
        {
            let mut j: usize = i + 1;
            while j < n
                invariant
                    i < n,
                    i + 1 <= j <= n,
                    n == self@.len(),
                    n == orig.len(),
                    cfg@.wf(),
                    0 <= dt <= DT_LIMIT,
                    world_wf(self@, cfg@),
                    ({
                        let p = sweep_inner(self@, evs_model(evs@), i as int, j as int, cfg@,
                            dt as int);
                        sweep_outer(p.0, p.1, i as int + 1, n as int, cfg@, dt as int)
                    }) == sweep_outer(orig, Seq::<(int, int)>::empty(), 0, n as int, cfg@,
                        dt as int),
                decreases n - j,
            {
                let ghost s0 = self@;
                let ghost e0 = evs_model(evs@);
                let a = self.entities[i];
                let b = self.entities[j];
                proof {
                    assert(a@ == s0[i as int]);
                    assert(b@ == s0[j as int]);
                }
                let r1 = resolve_entity(&a, &b, cfg, dt);
                self.entities.set(j, r1.0);
                if let Some(ev) = r1.1 {
                    evs.push(ev);
                }
                proof {
                    assert(self@ =~= s0.update(j as int, r1.0@));
                    assert(evs_model(evs@) =~= (match spec_resolve(
                        s0[i as int],
                        s0[j as int],
                        cfg@,
                        dt as int,
                    ).1 {
                        Some(p) => e0.push(p),
                        None => e0,
                    }));
                    lemma_wf_update(s0, cfg@, j as int, r1.0@);
                }
                let ghost s1 = self@;
                let ghost e1 = evs_model(evs@);
                let a2 = self.entities[j];
                let b2 = self.entities[i];
                proof {
                    assert(a2@ == s1[j as int]);
                    assert(b2@ == s1[i as int]);
                }
                let r2 = resolve_entity(&a2, &b2, cfg, dt);
                self.entities.set(i, r2.0);
                if let Some(ev) = r2.1 {
                    evs.push(ev);
                }
                proof {
                    assert(self@ =~= s1.update(i as int, r2.0@));
                    assert(evs_model(evs@) =~= (match spec_resolve(
                        s1[j as int],
                        s1[i as int],
                        cfg@,
                        dt as int,
                    ).1 {
                        Some(p) => e1.push(p),
                        None => e1,
                    }));
                    lemma_wf_update(s1, cfg@, i as int, r2.0@);
                    assert((self@, evs_model(evs@)) == step_pair(s0, e0, i as int, j as int,
                        cfg@, dt as int));
                    assert(sweep_inner(s0, e0, i as int, j as int, cfg@, dt as int)
                        == sweep_inner(self@, evs_model(evs@), i as int, j as int + 1, cfg@,
                        dt as int));
                }
                j += 1;
            }
            proof {
                assert(sweep_inner(self@, evs_model(evs@), i as int, n as int, cfg@, dt as int)
                    == (self@, evs_model(evs@)));
            }
            i += 1;
        }
        proof {
            assert(sweep_outer(self@, evs_model(evs@), n as int, n as int, cfg@, dt as int) == (
            self@,
            evs_model(evs@),
            ));
        }
        evs
    }

    /// Drains the spawn queue: one new Generic folder per event, appended in
    /// queue order, each at its event's position clamped into the playfield.
    pub fn drain_spawns(&mut self, evs: &Vec<SpawnEvent>, cfg: &Config)
        requires
            old(self).wf(cfg@),
            cfg@.wf(),
        ensures
            final(self)@ == spec_drain(old(self)@, evs_model(evs@), cfg@),
            final(self).wf(cfg@),
    {
        let ghost orig = self@;
        proof {
            assert(self@ =~= spec_drain(orig, evs_model(evs@).take(0), cfg@));
        }
        let m = evs.len();
        let mut k: usize = 0;
        while k < m
            invariant
                k <= m,
                m == evs@.len(),
                cfg@.wf(),
                world_wf(self@, cfg@),
                self@ == spec_drain(orig, evs_model(evs@).take(k as int), cfg@),
            decreases m - k,
        {
            let ev = evs[k];
            let ghost s0 = self@;
            let pos = clamp_pos(ev.pos, &Extent { hw: FOLDER_HW, hh: FOLDER_HH }, cfg);
            let ne = Entity {
                pos,
                ext: Extent { hw: FOLDER_HW, hh: FOLDER_HH },
                vel: Vel { x: 0, y: 0 },
                tag: Tag::Generic,
            };
            self.entities.push(ne);
            proof {
                assert(ne@ == folder_spawned(evs_model(evs@)[k as int], cfg@));
                assert(self@ =~= s0.push(ne@));
                assert(evs_model(evs@).take(k as int + 1) =~= evs_model(evs@).take(
                    k as int,
                ).push(evs_model(evs@)[k as int]));
                assert(self@ =~= spec_drain(orig, evs_model(evs@).take(k as int + 1), cfg@));
                assert forall|t: int| 0 <= t < self@.len() implies entity_wf(
                    #[trigger] self@[t],
                    cfg@,
                ) by {
                    if t < s0.len() {
                        assert(self@[t] == s0[t]);
                    }
                }
            }
            k += 1;
        }
        proof {
            assert(evs_model(evs@).take(m as int) =~= evs_model(evs@));
            assert(self@ =~= spec_drain(orig, evs_model(evs@), cfg@));
        }
    }

    /// One whole simulation tick, from the polled input state and the
    /// elapsed milliseconds: movement pass, pair sweep, spawn drain. Returns
    /// the spawn events the tick raised, in order, for the caller's
    /// notification collaborator.
    pub fn tick(&mut self, cfg: &Config, inp: InputState, dt: i64) -> (evs: Vec<SpawnEvent>)
        requires
            old(self).wf(cfg@),
            cfg@.wf(),
            0 <= dt <= DT_LIMIT,
        ensures
            final(self)@ == spec_tick(old(self)@, cfg@, inp, dt as int).0,
            evs_model(evs@) == spec_tick(old(self)@, cfg@, inp, dt as int).1,
            final(self).wf(cfg@),
    {
        self.move_pass(cfg, inp, dt);
        let evs = self.collision_pass(cfg, dt);
        self.drain_spawns(&evs, cfg);
        evs
    }
}

/// One ordered pair resolution, exactly `spec_resolve` on the models.
fn resolve_entity(a: &Entity, b: &Entity, cfg: &Config, dt: i64) -> (r: (Entity, Option<SpawnEvent>))
    requires
        cfg@.wf(),
        entity_wf(a@, cfg@),
        entity_wf(b@, cfg@),
        0 <= dt <= DT_LIMIT,
    ensures
        r.0@ == spec_resolve(a@, b@, cfg@, dt as int).0,
        entity_wf(r.0@, cfg@),
        (match r.1 {
            Some(e) => spec_resolve(a@, b@, cfg@, dt as int).1 == Some(e@),
            None => spec_resolve(a@, b@, cfg@, dt as int).1 is None,
        }),
{
    let col = collide(a.pos, &a.ext, b.pos, &b.ext);
    let ev: Option<SpawnEvent> = if col.is_some() && a.tag == Tag::Player && b.tag == Tag::Recycle {
        Some(SpawnEvent { pos: b.pos })
    } else {
        None
    };
    let mut vx: i64 = b.vel.x;
    let mut vy: i64 = b.vel.y;
    match col {
        Some(Side::Left) => {
            vx = vel_add(vx, cfg.launch);
        },
        Some(Side::Right) => {
            vx = vel_add(vx, -cfg.launch);
        },
        Some(Side::Top) => {
            vy = vel_add(vy, -cfg.launch);
        },
        Some(Side::Bottom) => {
            vy = vel_add(vy, cfg.launch);
        },
        Some(Side::Inside) => {
            vx = vel_add(vx, cfg.launch);
        },
        None => {},
    }
    proof {
        lemma_vel_dt_product(vx as int, dt as int);
        lemma_vel_dt_product(vy as int, dt as int);
    }
    let pos = clamp_pos(Pos { x: b.pos.x + vx * dt, y: b.pos.y + vy * dt }, &b.ext, cfg);
    (Entity { pos, ext: b.ext, vel: Vel { x: vx, y: vy }, tag: b.tag }, ev)
}

} // verus!
