use vstd::prelude::*;
use crate::geometry::{in_field, wrap_x, wrapped, Pos, HALF_WIDTH, MAX_FRAME_US};

verus! {

/// Player speed, in pixels per second (millionths of a pixel per microsecond).
pub const PLAYER_SPEED: i64 = 150;

/// Enemy speed, a little faster than the player.
pub const ENEMY_SPEED: i64 = 160;

/// Time between two animation frames, in microseconds.
pub const FRAME_INTERVAL_US: u64 = 100_000;

/// The way an actor faces, which is also the way it moves.
#[derive(Clone, Copy, Debug, PartialEq, Eq, Structural)]
pub enum Direction {
    Left,
    Right,
}

/// A repeating timer that steps a sprite-sheet index through `first ..= last`.
#[derive(Clone, Copy, Debug, PartialEq, Eq, Structural)]
pub struct Animation {
    pub first: usize,
    pub last: usize,
    pub index: usize,
    pub interval_us: u64,
    pub elapsed_us: u64,
}

impl Animation {
    pub open spec fn wf(self) -> bool {
        &&& self.first <= self.index <= self.last
        &&& 0 < self.interval_us <= u32::MAX
        &&& self.elapsed_us < self.interval_us
    }

    /// The index that follows `index`, going from `last` back to `first`.
    pub open spec fn next_index(self) -> usize {
        if self.index == self.last {
            self.first
        } else {
            (self.index + 1) as usize
        }
    }

    pub open spec fn ticked(self, dt_us: u64) -> Animation {
        let total = self.elapsed_us + dt_us;
        if total >= self.interval_us {
            Animation {
                index: self.next_index(),
                elapsed_us: (total % (self.interval_us as int)) as u64,
                ..self
            }
        } else {
            Animation { elapsed_us: total as u64, ..self }
        }
    }

    /// The running sequence of a sprite sheet with frames `1 ..= 6`,
    /// starting on its first frame.
    pub fn running() -> (r: Animation)
        ensures
            r.wf(),
            r == (Animation { first: 1, last: 6, index: 1, interval_us: FRAME_INTERVAL_US, elapsed_us: 0 }),
    {
        Animation { first: 1, last: 6, index: 1, interval_us: FRAME_INTERVAL_US, elapsed_us: 0 }
    }

    /// Lets `dt_us` pass; each time the interval runs out the index moves on
    /// by one, once per tick however many intervals the tick spans.
    pub fn tick(&mut self, dt_us: u64)
        requires
            old(self).wf(),
            dt_us <= MAX_FRAME_US,
        ensures
            final(self).wf(),
            *final(self) == old(self).ticked(dt_us),
    {
        let total: u64 = self.elapsed_us + dt_us;
        if total >= self.interval_us {
            self.elapsed_us = total % self.interval_us;
            self.index = if self.index == self.last {
                self.first
            } else {
                self.index + 1
            };
        } else {
            self.elapsed_us = total;
        }
    }
}

/// The player or the enemy: where it is, where it faces, whether its sprite
/// is drawn mirrored, and its animation.
#[derive(Clone, Copy, Debug, PartialEq, Eq, Structural)]
pub struct Actor {
    pub pos: Pos,
    pub facing: Direction,
    pub flip_x: bool,
    pub frames: Animation,
}

/// The signed distance covered in `dt_us` at `speed`, facing `facing`.
pub open spec fn travel(facing: Direction, speed: int, dt_us: u64) -> int {
    match facing {
        Direction::Left => -(speed * dt_us),
        Direction::Right => speed * dt_us,
    }
}

impl Actor {
    /// The sprite is mirrored exactly when the actor faces left, and it
    /// stands inside the field.
    pub open spec fn wf(self) -> bool {
        &&& self.frames.wf()
        &&& self.flip_x == (self.facing == Direction::Left)
        &&& in_field(self.pos.x as int)
    }

    pub open spec fn spawned_at(x: int) -> Actor {
        Actor {
            pos: Pos { x: x as i64, y: 0 },
            facing: Direction::Right,
            flip_x: false,
            frames: Animation { first: 1, last: 6, index: 1, interval_us: FRAME_INTERVAL_US, elapsed_us: 0 },
        }
    }

    /// The player after a frame of `dt_us`: moved along its facing, then
    /// wrapped across the field's edges.
    pub open spec fn moved(self, dt_us: u64) -> Actor {
        Actor {
            pos: Pos {
                x: wrapped(self.pos.x + travel(self.facing, PLAYER_SPEED as int, dt_us)) as i64,
                ..self.pos
            },
            ..self
        }
    }

    pub open spec fn turned(self) -> Actor {
        let facing = match self.facing {
            Direction::Left => Direction::Right,
            Direction::Right => Direction::Left,
        };
        Actor { facing, flip_x: facing == Direction::Left, ..self }
    }

    /// The enemy after a frame of `dt_us` chasing a target at `target_x`:
    /// it faces left exactly when the target is to its left, then moves that
    /// way, stopping at the field's edge.
    pub open spec fn pursued(self, target_x: int, dt_us: u64) -> Actor {
        let facing = if target_x < self.pos.x { Direction::Left } else { Direction::Right };
        let x = self.pos.x + travel(facing, ENEMY_SPEED as int, dt_us);
        let x = if x < -HALF_WIDTH { -HALF_WIDTH as int } else if x > HALF_WIDTH { HALF_WIDTH as int } else { x };
        Actor { pos: Pos { x: x as i64, ..self.pos }, facing, flip_x: facing == Direction::Left, ..self }
    }

    /// An actor at `(x, 0)`, facing right, on the first running frame.
    pub fn spawn(x: i64) -> (r: Actor)
        requires
            in_field(x as int),
        ensures
            r == Actor::spawned_at(x as int),
            r.wf(),
    {
        Actor {
            pos: Pos { x, y: 0 },
            facing: Direction::Right,
            flip_x: false,
            frames: Animation::running(),
        }
    }

    /// Moves the player for one frame at its speed along its facing; past
    /// either edge it comes back one field width from the other side.
    pub fn advance(&mut self, dt_us: u64)
        requires
            old(self).wf(),
            dt_us <= MAX_FRAME_US,
        ensures
            *final(self) == old(self).moved(dt_us),
            final(self).wf(),
    {
        let step: i64 = PLAYER_SPEED * (dt_us as i64);
        let x: i64 = match self.facing {
            Direction::Left => self.pos.x - step,
            Direction::Right => self.pos.x + step,
        };
        self.pos.x = wrap_x(x);
    }

    /// Reverses the facing; the mirror flag follows it.
    pub fn turn_around(&mut self)
        requires
            old(self).wf(),
        ensures
            *final(self) == old(self).turned(),
            final(self).wf(),
    {
        match self.facing {
            Direction::Left => {
                self.facing = Direction::Right;
                self.flip_x = false;
            },
            Direction::Right => {
                self.facing = Direction::Left;
                self.flip_x = true;
            },
        }
    }

    /// Turns the enemy towards `target` and moves it for one frame, never
    /// past the field's edges.
    pub fn pursue(&mut self, target: Pos, dt_us: u64)
        requires
            old(self).wf(),
            dt_us <= MAX_FRAME_US,
        ensures
            *final(self) == old(self).pursued(target.x as int, dt_us),
            final(self).wf(),
            final(self).flip_x == (final(self).facing == Direction::Left),
            (final(self).facing == Direction::Left) == (target.x < old(self).pos.x),
            in_field(final(self).pos.x as int),
    {
        let step: i64 = ENEMY_SPEED * (dt_us as i64);
        if target.x < self.pos.x {
            self.facing = Direction::Left;
            self.flip_x = true;
            let x: i64 = self.pos.x - step;
            self.pos.x = if x < -HALF_WIDTH { -HALF_WIDTH } else { x };
        } else {
            self.facing = Direction::Right;
            self.flip_x = false;
            let x: i64 = self.pos.x + step;
            self.pos.x = if x > HALF_WIDTH { HALF_WIDTH } else { x };
        }
    }
}

/// However far the enemy has come and whatever the frame's length, one more
/// frame of pursuit leaves it inside the field, facing the target and
/// mirrored exactly when it faces left.
pub proof fn lemma_pursuit_stays_in_field(enemy: Actor, target_x: int, dt_us: u64)
    requires
        enemy.wf(),
    ensures
        in_field(enemy.pursued(target_x, dt_us).pos.x as int),
        enemy.pursued(target_x, dt_us).wf(),
        (enemy.pursued(target_x, dt_us).facing == Direction::Left) == (target_x < enemy.pos.x),
        enemy.pursued(target_x, dt_us).flip_x == (enemy.pursued(target_x, dt_us).facing == Direction::Left),
{
}

} // verus!
