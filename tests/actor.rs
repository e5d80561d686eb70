use pacm1n::actor::{Actor, Animation, Direction, FRAME_INTERVAL_US};
use pacm1n::geometry::{Pos, HALF_WIDTH, MAX_FRAME_US, UNIT};

#[test]
fn player_runs_right_at_its_speed() {
    let mut p = Actor::spawn(0);
    p.advance(1_000_000);
    assert_eq!(p.pos.x, 150 * UNIT);
    assert_eq!(p.pos.y, 0);
    assert_eq!(p.facing, Direction::Right);
}

#[test]
fn player_wraps_at_the_right_edge() {
    let mut p = Actor::spawn(399 * UNIT);
    p.advance(20_000);
    // 399 px + 3 px = 402 px, one width back: -398 px
    assert_eq!(p.pos.x, -398 * UNIT);
}

#[test]
fn player_facing_left_wraps_at_the_left_edge() {
    let mut p = Actor::spawn(-399 * UNIT);
    p.turn_around();
    p.advance(20_000);
    assert_eq!(p.pos.x, 398 * UNIT);
}

#[test]
fn player_stays_in_field_on_longest_frame() {
    let mut p = Actor::spawn(HALF_WIDTH);
    p.advance(MAX_FRAME_US);
    assert_eq!(p.pos.x, HALF_WIDTH + 750 * UNIT - 800 * UNIT);
    assert!(p.pos.x >= -HALF_WIDTH && p.pos.x <= HALF_WIDTH);
}

#[test]
fn turning_flips_facing_and_mirror_together() {
    let mut p = Actor::spawn(0);
    assert!(!p.flip_x);
    p.turn_around();
    assert_eq!(p.facing, Direction::Left);
    assert!(p.flip_x);
    p.turn_around();
    assert_eq!(p.facing, Direction::Right);
    assert!(!p.flip_x);
}

#[test]
fn enemy_turns_towards_player_on_its_left() {
    let mut e = Actor::spawn(100 * UNIT);
    e.pursue(Pos { x: 0, y: 0 }, 1_000_000);
    assert_eq!(e.facing, Direction::Left);
    assert!(e.flip_x);
    assert_eq!(e.pos.x, -60 * UNIT);
}

#[test]
fn enemy_faces_right_when_level_with_player() {
    let mut e = Actor::spawn(0);
    e.turn_around();
    e.pursue(Pos { x: 0, y: 0 }, 100_000);
    assert_eq!(e.facing, Direction::Right);
    assert!(!e.flip_x);
    assert_eq!(e.pos.x, 16 * UNIT);
}

#[test]
fn enemy_stops_at_the_edges() {
    let mut e = Actor::spawn(-HALF_WIDTH + UNIT);
    e.pursue(Pos { x: -HALF_WIDTH, y: 0 }, MAX_FRAME_US);
    assert_eq!(e.pos.x, -HALF_WIDTH);
    e.pursue(Pos { x: -HALF_WIDTH - 1, y: 0 }, MAX_FRAME_US);
    assert_eq!(e.pos.x, -HALF_WIDTH);
    let mut f = Actor::spawn(HALF_WIDTH - UNIT);
    for _ in 0..100 {
        f.pursue(Pos { x: HALF_WIDTH, y: 0 }, MAX_FRAME_US);
        assert!(f.pos.x <= HALF_WIDTH);
    }
    assert_eq!(f.pos.x, HALF_WIDTH);
}

#[test]
fn animation_steps_once_per_interval() {
    let mut a = Animation::running();
    assert_eq!(a.index, 1);
    a.tick(60_000);
    assert_eq!(a.index, 1);
    assert_eq!(a.elapsed_us, 60_000);
    a.tick(60_000);
    assert_eq!(a.index, 2);
    assert_eq!(a.elapsed_us, 20_000);
}

#[test]
fn animation_wraps_from_last_to_first() {
    let mut a = Animation::running();
    for _ in 0..5 {
        a.tick(FRAME_INTERVAL_US);
    }
    assert_eq!(a.index, 6);
    a.tick(FRAME_INTERVAL_US);
    assert_eq!(a.index, 1);
}

#[test]
fn animation_long_tick_steps_only_once() {
    let mut a = Animation::running();
    a.tick(350_000);
    assert_eq!(a.index, 2);
    assert_eq!(a.elapsed_us, 50_000);
}
