use pacm1n::geometry::{overlaps, wrap_x, Pos, HALF_WIDTH, UNIT, WIDTH};

#[test]
fn wrap_past_right_edge_moves_one_width_left() {
    let x = HALF_WIDTH + 3 * UNIT;
    let r = wrap_x(x);
    assert_eq!(r, x - WIDTH);
    assert_eq!(r, -397 * UNIT);
    assert!(r >= -HALF_WIDTH && r <= HALF_WIDTH);
}

#[test]
fn wrap_past_left_edge_moves_one_width_right() {
    let x = -HALF_WIDTH - 1;
    let r = wrap_x(x);
    assert_eq!(r, x + WIDTH);
    assert_eq!(r, HALF_WIDTH - 1);
}

#[test]
fn wrap_keeps_points_inside_the_field() {
    assert_eq!(wrap_x(0), 0);
    assert_eq!(wrap_x(HALF_WIDTH), HALF_WIDTH);
    assert_eq!(wrap_x(-HALF_WIDTH), -HALF_WIDTH);
    assert_eq!(wrap_x(123), 123);
}

#[test]
fn wrap_of_largest_overshoot_lands_on_the_edge() {
    assert_eq!(wrap_x(3 * HALF_WIDTH), HALF_WIDTH);
    assert_eq!(wrap_x(-3 * HALF_WIDTH), -HALF_WIDTH);
}

#[test]
fn overlap_is_strict() {
    let a = Pos { x: 0, y: 0 };
    let touching = Pos { x: 70 * UNIT, y: 0 };
    let inside = Pos { x: 70 * UNIT - 1, y: 0 };
    assert!(!overlaps(a, 35 * UNIT, touching, 35 * UNIT));
    assert!(overlaps(a, 35 * UNIT, inside, 35 * UNIT));
    assert!(overlaps(inside, 35 * UNIT, a, 35 * UNIT));
}

#[test]
fn overlap_needs_both_axes() {
    let a = Pos { x: 0, y: 0 };
    let b = Pos { x: 10, y: 80 * UNIT };
    assert!(!overlaps(a, 35 * UNIT, b, 35 * UNIT));
    let c = Pos { x: -10, y: -69 * UNIT };
    assert!(overlaps(a, 35 * UNIT, c, 35 * UNIT));
}

#[test]
fn overlap_at_extreme_coordinates_does_not_overflow() {
    let a = Pos { x: i64::MAX, y: i64::MIN };
    let b = Pos { x: i64::MIN, y: i64::MAX };
    assert!(!overlaps(a, i64::MAX, b, 0));
    assert!(overlaps(a, i64::MAX, a, i64::MAX));
}
