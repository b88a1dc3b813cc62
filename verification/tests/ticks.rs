use platformer_core::config::Config;
use platformer_core::entity::{Extent, Pos, Tag, Vel};
use platformer_core::motion::InputState;
use platformer_core::world::World;

const DT: i64 = 1_000;

fn released() -> InputState {
    InputState { left: false, right: false, jump: false }
}

fn right() -> InputState {
    InputState { left: false, right: true, jump: false }
}

#[test]
fn standard_world_has_three_entities() {
    let cfg = Config::standard();
    let w = World::standard_start(&cfg);
    assert_eq!(w.len(), 3);
    let player = w.get(0);
    assert_eq!(player.tag, Tag::Player);
    assert_eq!(player.pos, Pos { x: 0, y: 0 });
    assert_eq!(player.ext, Extent { hw: 15_000, hh: 25_000 });
    assert_eq!(player.vel, Vel { x: 0, y: 0 });
    let recycle = w.get(1);
    assert_eq!(recycle.tag, Tag::Recycle);
    assert_eq!(recycle.pos, Pos { x: 50_000, y: -290_000 });
    assert_eq!(recycle.ext, Extent { hw: 18_500, hh: 21_500 });
    let folder = w.get(2);
    assert_eq!(folder.tag, Tag::Generic);
    assert_eq!(folder.ext, Extent { hw: 18_500, hh: 16_000 });
}

#[test]
fn velocity_clamped_then_frictioned() {
    // An entity already at the horizontal speed ceiling: after one tick its
    // speed was clamped to at most 100 before integration and then scaled by
    // the 0.75 friction factor.
    let cfg = Config::standard();
    let mut w = World::new();
    let id = w.spawn(
        Pos { x: 0, y: 0 },
        Extent { hw: 5_000, hh: 5_000 },
        Vel { x: 100, y: 0 },
        Tag::Generic,
        &cfg,
    );
    w.tick(&cfg, released(), DT);
    let e = w.get(id);
    assert!(e.vel.x <= 100);
    assert_eq!(e.vel.x, 75);
    // Integration used the clamped, pre-friction speed: 100 units over 1 s.
    assert_eq!(e.pos.x, 100_000);
}

#[test]
fn gravity_pulls_resting_entity() {
    // At rest at y = 0 with h = 50: one tick with gravity 10 and dt = 1 s
    // leaves vy = -10 and moves y down by 10 units.
    let cfg = Config::standard();
    let mut w = World::new();
    let id = w.spawn(
        Pos { x: 0, y: 0 },
        Extent { hw: 15_000, hh: 25_000 },
        Vel { x: 0, y: 0 },
        Tag::Generic,
        &cfg,
    );
    w.tick(&cfg, released(), DT);
    let e = w.get(id);
    assert_eq!(e.vel.y, -10);
    assert_eq!(e.pos.y, -10_000);
}

#[test]
fn integration_is_clamped_at_the_floor() {
    let cfg = Config::standard();
    let mut w = World::new();
    let id = w.spawn(
        Pos { x: 0, y: -330_000 },
        Extent { hw: 15_000, hh: 25_000 },
        Vel { x: 0, y: 0 },
        Tag::Generic,
        &cfg,
    );
    w.tick(&cfg, released(), DT);
    let e = w.get(id);
    // -330 - 10 would be -340, below the floor for h = 50: clamped exactly.
    assert_eq!(e.pos.y, -335_000);
}

#[test]
fn integration_is_clamped_at_the_wall() {
    let cfg = Config::standard();
    let mut w = World::new();
    let id = w.spawn(
        Pos { x: 620_000, y: 0 },
        Extent { hw: 15_000, hh: 5_000 },
        Vel { x: 100, y: 0 },
        Tag::Generic,
        &cfg,
    );
    w.tick(&cfg, released(), DT);
    let e = w.get(id);
    // 620 + 100 would pass the right wall at 625: clamped exactly.
    assert_eq!(e.pos.x, 625_000);
}

#[test]
fn jump_applies_only_when_grounded() {
    let cfg = Config::standard();
    let jump = InputState { left: false, right: false, jump: true };
    // Grounded player: the jump impulse applies, then gravity.
    let mut w = World::new();
    let id = w.spawn(
        Pos { x: 0, y: -335_000 },
        Extent { hw: 15_000, hh: 25_000 },
        Vel { x: 0, y: 0 },
        Tag::Player,
        &cfg,
    );
    w.tick(&cfg, jump, DT);
    let e = w.get(id);
    assert_eq!(e.vel.y, 190);
    assert_eq!(e.pos.y, -145_000);
    // Airborne player: the jump impulse is denied.
    let mut w2 = World::new();
    let id2 = w2.spawn(
        Pos { x: 0, y: 0 },
        Extent { hw: 15_000, hh: 25_000 },
        Vel { x: 0, y: 0 },
        Tag::Player,
        &cfg,
    );
    w2.tick(&cfg, jump, DT);
    assert_eq!(w2.get(id2).vel.y, -10);
}

#[test]
fn opposed_keys_cancel() {
    let cfg = Config::standard();
    let both = InputState { left: true, right: true, jump: false };
    let mut w = World::new();
    let id = w.spawn(
        Pos { x: 0, y: 0 },
        Extent { hw: 15_000, hh: 25_000 },
        Vel { x: 0, y: 0 },
        Tag::Player,
        &cfg,
    );
    w.tick(&cfg, both, DT);
    let e = w.get(id);
    assert_eq!(e.vel.x, 0);
    assert_eq!(e.pos.x, 0);
}

#[test]
fn launch_impulse_follows_side() {
    let cfg = Config::standard();
    // Side by side: the second entity is struck on the first's right edge
    // and is pushed in -x by the fixed launch magnitude.
    let mut w = World::new();
    w.spawn(
        Pos { x: 0, y: 0 },
        Extent { hw: 5_000, hh: 5_000 },
        Vel { x: 0, y: 0 },
        Tag::Generic,
        &cfg,
    );
    let b = w.spawn(
        Pos { x: 6_000, y: 0 },
        Extent { hw: 5_000, hh: 5_000 },
        Vel { x: 0, y: 0 },
        Tag::Generic,
        &cfg,
    );
    w.tick(&cfg, released(), DT);
    assert_eq!(w.get(b).vel.x, -200);
    // Stacked with the smaller penetration vertical: the upper entity is
    // struck on the first's top edge and pushed in -y.
    let mut w2 = World::new();
    w2.spawn(
        Pos { x: 0, y: 0 },
        Extent { hw: 5_000, hh: 5_000 },
        Vel { x: 0, y: 0 },
        Tag::Generic,
        &cfg,
    );
    let t = w2.spawn(
        Pos { x: 1_000, y: 6_000 },
        Extent { hw: 5_000, hh: 5_000 },
        Vel { x: 0, y: 0 },
        Tag::Generic,
        &cfg,
    );
    w2.tick(&cfg, released(), DT);
    // Gravity first takes both velocities to -10; the Top-side launch then
    // subtracts 200.
    assert_eq!(w2.get(t).vel.y, -210);
}

#[test]
fn player_reaching_recycle_spawns_one_folder() {
    // The player falls from the origin while the recycle bin settles on the
    // floor at (50, -338.5). Pressing right once the player has landed walks
    // it into the bin: that tick raises exactly one spawn event carrying the
    // bin's current position, and the drain creates one Generic folder of
    // the fixed 37x32 size, at rest, at that position.
    let cfg = Config::standard();
    let mut w = World::new();
    let player = w.spawn(
        Pos { x: 0, y: 0 },
        Extent { hw: 15_000, hh: 25_000 },
        Vel { x: 0, y: 0 },
        Tag::Player,
        &cfg,
    );
    let recycle = w.spawn(
        Pos { x: 50_000, y: -290_000 },
        Extent { hw: 18_500, hh: 21_500 },
        Vel { x: 0, y: 0 },
        Tag::Recycle,
        &cfg,
    );
    for _ in 0..5 {
        let evs = w.tick(&cfg, released(), DT);
        assert_eq!(evs.len(), 0);
        assert_eq!(w.len(), 2);
    }
    // The player has landed; the bin rests on the floor.
    assert_eq!(w.get(player).pos, Pos { x: 0, y: -300_000 });
    assert_eq!(w.get(recycle).pos, Pos { x: 50_000, y: -338_500 });
    let evs = w.tick(&cfg, right(), DT);
    assert_eq!(evs.len(), 1);
    assert_eq!(evs[0].pos, Pos { x: 50_000, y: -338_500 });
    assert_eq!(w.len(), 3);
    let folder = w.get(2);
    assert_eq!(folder.tag, Tag::Generic);
    assert_eq!(folder.ext, Extent { hw: 18_500, hh: 16_000 });
    assert_eq!(folder.vel, Vel { x: 0, y: 0 });
    assert_eq!(folder.pos, Pos { x: 50_000, y: -338_500 });
}

#[test]
fn entity_in_a_pair_integrates_once_per_ordered_pair() {
    // The pair sweep integrates the second member of every ordered pair,
    // collision or not, so with two entities each one integrates twice per
    // tick: once in the movement pass and once in the sweep. This extra
    // integration is a deliberate quirk of the resolution pass, kept as is.
    let cfg = Config::standard();
    let mut w = World::new();
    let a = w.spawn(
        Pos { x: -500_000, y: 0 },
        Extent { hw: 5_000, hh: 5_000 },
        Vel { x: 0, y: 0 },
        Tag::Generic,
        &cfg,
    );
    w.spawn(
        Pos { x: 500_000, y: 0 },
        Extent { hw: 5_000, hh: 5_000 },
        Vel { x: 0, y: 0 },
        Tag::Generic,
        &cfg,
    );
    w.tick(&cfg, released(), DT);
    let e = w.get(a);
    assert_eq!(e.vel.y, -10);
    // A lone entity would have fallen 10 units; a paired one falls 20.
    assert_eq!(e.pos.y, -20_000);
}

#[test]
fn spawn_clamps_into_the_playfield() {
    let cfg = Config::standard();
    let mut w = World::new();
    let id = w.spawn(
        Pos { x: 700_000, y: 0 },
        Extent { hw: 15_000, hh: 5_000 },
        Vel { x: 0, y: 0 },
        Tag::Generic,
        &cfg,
    );
    assert_eq!(w.get(id).pos.x, 625_000);
}
