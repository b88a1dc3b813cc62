use platformer_core::collision::{collide, Side};
use platformer_core::config::Config;
use platformer_core::entity::{clamp_pos, Extent, Pos};

fn sq(hw: i64, hh: i64) -> Extent {
    Extent { hw, hh }
}

fn at(x: i64, y: i64) -> Pos {
    Pos { x, y }
}

#[test]
fn separated_boxes_do_not_collide() {
    let e = sq(5_000, 5_000);
    assert_eq!(collide(at(0, 0), &e, at(20_000, 0), &e), None);
    assert_eq!(collide(at(0, 0), &e, at(0, -20_000), &e), None);
    assert_eq!(collide(at(0, 0), &e, at(20_000, 20_000), &e), None);
}

#[test]
fn touching_edges_do_not_collide() {
    let e = sq(5_000, 5_000);
    // Boxes sharing an edge overlap by exactly zero: no collision.
    assert_eq!(collide(at(0, 0), &e, at(10_000, 0), &e), None);
    assert_eq!(collide(at(0, 0), &e, at(0, 10_000), &e), None);
}

#[test]
fn contained_box_is_inside() {
    let a = sq(10_000, 10_000);
    let b = sq(2_000, 2_000);
    assert_eq!(collide(at(0, 0), &a, at(1_000, 1_000), &b), Some(Side::Inside));
    // The other way round B is not within A.
    assert_ne!(collide(at(1_000, 1_000), &b, at(0, 0), &a), Some(Side::Inside));
}

#[test]
fn horizontal_sides_from_center_offset() {
    let e = sq(5_000, 5_000);
    assert_eq!(collide(at(0, 0), &e, at(-6_000, 1_000), &e), Some(Side::Left));
    assert_eq!(collide(at(0, 0), &e, at(6_000, 1_000), &e), Some(Side::Right));
}

#[test]
fn vertical_sides_from_center_offset() {
    let e = sq(5_000, 5_000);
    assert_eq!(collide(at(0, 0), &e, at(1_000, 6_000), &e), Some(Side::Top));
    assert_eq!(collide(at(0, 0), &e, at(1_000, -6_000), &e), Some(Side::Bottom));
}

#[test]
fn equal_penetration_prefers_horizontal() {
    let e = sq(5_000, 5_000);
    // Offsets (6000, 6000): both penetrations are 4000; the tie goes to the
    // horizontal axis.
    assert_eq!(collide(at(0, 0), &e, at(6_000, 6_000), &e), Some(Side::Right));
    assert_eq!(collide(at(0, 0), &e, at(-6_000, 6_000), &e), Some(Side::Left));
}

#[test]
fn smaller_y_penetration_gives_vertical_side() {
    let e = sq(5_000, 5_000);
    // x penetration 9000, y penetration 4000: the vertical axis decides.
    let r = collide(at(0, 0), &e, at(1_000, 6_000), &e);
    assert!(r == Some(Side::Top) || r == Some(Side::Bottom));
    assert_eq!(r, Some(Side::Top));
}

#[test]
fn horizontal_reflection_swaps_left_right() {
    let e = sq(5_000, 5_000);
    let orig = collide(at(0, 0), &e, at(-6_000, 1_000), &e);
    let refl = collide(at(0, 0), &e, at(6_000, 1_000), &e);
    assert_eq!(orig, Some(Side::Left));
    assert_eq!(refl, Some(Side::Right));
    // A vertically decided result is unchanged by the horizontal reflection.
    let orig_v = collide(at(0, 0), &e, at(1_000, 6_000), &e);
    let refl_v = collide(at(0, 0), &e, at(-1_000, 6_000), &e);
    assert_eq!(orig_v, Some(Side::Top));
    assert_eq!(refl_v, Some(Side::Top));
}

#[test]
fn vertical_reflection_swaps_top_bottom() {
    let e = sq(5_000, 5_000);
    let orig = collide(at(0, 0), &e, at(1_000, 6_000), &e);
    let refl = collide(at(0, 0), &e, at(1_000, -6_000), &e);
    assert_eq!(orig, Some(Side::Top));
    assert_eq!(refl, Some(Side::Bottom));
    // A horizontally decided result is unchanged by the vertical reflection.
    let orig_h = collide(at(0, 0), &e, at(6_000, 1_000), &e);
    let refl_h = collide(at(0, 0), &e, at(6_000, -1_000), &e);
    assert_eq!(orig_h, Some(Side::Right));
    assert_eq!(refl_h, Some(Side::Right));
}

#[test]
fn clamp_in_bounds_is_noop() {
    let cfg = Config::standard();
    let e = sq(15_000, 25_000);
    let p = clamp_pos(at(123_000, -45_000), &e, &cfg);
    assert_eq!(p.x, 123_000);
    assert_eq!(p.y, -45_000);
    // At the exact boundary it is still a no-op.
    let q = clamp_pos(at(625_000, -335_000), &e, &cfg);
    assert_eq!(q.x, 625_000);
    assert_eq!(q.y, -335_000);
}

#[test]
fn clamp_out_of_bounds_lands_on_boundary() {
    let cfg = Config::standard();
    let e = sq(15_000, 25_000);
    let p = clamp_pos(at(700_000, -400_000), &e, &cfg);
    assert_eq!(p.x, 625_000);
    assert_eq!(p.y, -335_000);
}
