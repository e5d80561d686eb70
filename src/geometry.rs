use vstd::prelude::*;

verus! {

/// One pixel, in the length unit of the game.
pub const UNIT: i64 = 1_000_000;

/// Width of the play field: 800 pixels.
pub const WIDTH: i64 = 800_000_000;

/// Half the width; the field spans `-HALF_WIDTH ..= HALF_WIDTH`.
pub const HALF_WIDTH: i64 = 400_000_000;

/// Longest frame the rules accept, in microseconds: in one frame no actor
/// travels more than one field width.
pub const MAX_FRAME_US: u64 = 5_000_000;

/// A point in the plane, in millionths of a pixel.
#[derive(Clone, Copy, Debug, PartialEq, Eq, Structural)]
pub struct Pos {
    pub x: i64,
    pub y: i64,
}

pub open spec fn in_field(x: int) -> bool {
    -HALF_WIDTH <= x <= HALF_WIDTH
}

/// Where an x coordinate lands after one wrap across the field's edges.
pub open spec fn wrapped(x: int) -> int {
    if x > HALF_WIDTH {
        x - WIDTH
    } else if x < -HALF_WIDTH {
        x + WIDTH
    } else {
        x
    }
}

/// Two axis-aligned squares, given by centre and half side, overlap when
/// each one's lower edge lies strictly below the other's upper edge, on both axes.
pub open spec fn boxes_overlap(a: Pos, a_half: int, b: Pos, b_half: int) -> bool {
    &&& a.x - a_half < b.x + b_half
    &&& a.x + a_half > b.x - b_half
    &&& a.y - a_half < b.y + b_half
    &&& a.y + a_half > b.y - b_half
}

/// Moves an x coordinate that has left the field by one field width, back
/// towards the opposite edge.
pub fn wrap_x(x: i64) -> (r: i64)
    ensures
        r == wrapped(x as int),
{
    if x > HALF_WIDTH {
        x - WIDTH
    } else if x < -HALF_WIDTH {
        x + WIDTH
    } else {
        x
    }
}

/// Whether the square of half side `a_half` centred on `a` overlaps the one
/// of half side `b_half` centred on `b`.
pub fn overlaps(a: Pos, a_half: i64, b: Pos, b_half: i64) -> (r: bool)
    ensures
        r == boxes_overlap(a, a_half as int, b, b_half as int),
{
    let ax = a.x as i128;
    let ay = a.y as i128;
    let bx = b.x as i128;
    let by = b.y as i128;
    let ah = a_half as i128;
    let bh = b_half as i128;
    ax - ah < bx + bh && ax + ah > bx - bh && ay - ah < by + bh && ay + ah > by - bh
}

/// A coordinate past the right edge comes back one width to the left and
/// lands inside the field, and symmetrically past the left edge; this holds
/// for any overshoot of at most one field width.
pub proof fn lemma_wrap_lands_in_field(x: int)
    requires
        -3 * HALF_WIDTH <= x <= 3 * HALF_WIDTH,
    ensures
        x > HALF_WIDTH ==> wrapped(x) == x - WIDTH,
        x < -HALF_WIDTH ==> wrapped(x) == x + WIDTH,
        in_field(wrapped(x)),
{
}

} // verus!
