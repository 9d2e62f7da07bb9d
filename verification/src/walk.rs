//! The random-walk behavior: each tick an entity steps by a direction pair
//! drawn uniformly from {-1, 0, 1} on each axis, scaled by a speed, and its
//! heading is recomputed from the pair.
//!
//! The direction draws go through `rand`'s thread-local generator. The speed
//! is a Gaussian sample; it is floating point at the source, so the caller
//! draws it and hands it in as a fixed-point scalar (which also lets a test
//! inject a deterministic value).

use crate::model::{Behavior, Entity, Physics};
use rand::Rng;
use vstd::prelude::*;

verus! {

/// The heading, in eighth turns, after a step in direction (`dx`, `dy`);
/// the (0, 0) pair leaves the previous heading in place.
///
/// In radians the table reads: one eighth turn is a quarter pi, so (0, -1)
/// faces up at 0, (1, 0) faces right at half pi, (0, 1) faces down at pi,
/// and (-1, 0) faces left at minus half pi, with the diagonals in between.
pub open spec fn heading_after(dx: int, dy: int, rotation: int) -> int {
    if dx == -1 {
        if dy == -1 {
            -1
        } else if dy == 1 {
            -3
        } else {
            -2
        }
    } else if dx == 1 {
        if dy == -1 {
            1
        } else if dy == 1 {
            3
        } else {
            2
        }
    } else {
        if dy == -1 {
            0
        } else if dy == 1 {
            4
        } else {
            rotation
        }
    }
}

/// A step of the given speed from `p`, in either axis direction, stays in
/// machine range.
pub open spec fn walk_bounds(p: Physics, speed: int) -> bool {
    &&& i64::MIN <= p.x + speed <= i64::MAX
    &&& i64::MIN <= p.x - speed <= i64::MAX
    &&& i64::MIN <= p.y + speed <= i64::MAX
    &&& i64::MIN <= p.y - speed <= i64::MAX
}

/// The physics state after one walk step in direction (`dx`, `dy`) at the
/// given speed: the position moves by the direction times the speed, the
/// size is untouched, and the heading follows the table.
pub open spec fn walked(pre: Physics, dx: int, dy: int, speed: int) -> Physics {
    Physics {
        x: (pre.x + dx * speed) as i64,
        y: (pre.y + dy * speed) as i64,
        size: pre.size,
        rotation: heading_after(dx, dy, pre.rotation as int) as i32,
    }
}

/// `post` is one walk step at the given speed from `pre`, for some direction
/// pair; what an observer of a single update tick can rely on without
/// knowing the random draws.
pub open spec fn walk_step(pre: Physics, post: Physics, speed: int) -> bool {
    exists|dx: int, dy: int|
        #![trigger walked(pre, dx, dy, speed)]
        -1 <= dx <= 1 && -1 <= dy <= 1 && post == walked(pre, dx, dy, speed)
}

/// Relies on rand 0.8: `rand::thread_rng` returns the thread-local
/// generator and `Rng::gen_range(-1..2)` draws uniformly from that non-empty
/// half-open range, so the result is one of -1, 0, 1 (and the call cannot
/// panic, since the range is non-empty).
#[verifier::external_body]
fn draw_direction() -> (d: i16)
    ensures
        -1 <= d <= 1,
{
    rand::thread_rng().gen_range(-1..2)
}

/// One coordinate moved by `dir` times `speed`, exactly.
fn step(coord: i64, dir: i16, speed: i64) -> (r: i64)
    requires
        -1 <= dir <= 1,
        dir == 1 ==> i64::MIN <= coord + speed <= i64::MAX,
        dir == -1 ==> i64::MIN <= coord - speed <= i64::MAX,
    ensures
        r == coord + dir * speed,
{
    if dir == 1 {
        coord + speed
    } else if dir == -1 {
        coord - speed
    } else {
        coord
    }
}

/// The heading table as executable code.
fn heading(dx: i16, dy: i16, rotation: i32) -> (r: i32)
    requires
        -1 <= dx <= 1,
        -1 <= dy <= 1,
    ensures
        r == heading_after(dx as int, dy as int, rotation as int),
{
    match dx {
        -1 => match dy {
            -1 => -1,
            1 => -3,
            _ => -2,
        },
        1 => match dy {
            -1 => 1,
            1 => 3,
            _ => 2,
        },
        _ => match dy {
            -1 => 0,
            1 => 4,
            _ => rotation,
        },
    }
}

/// One deterministic walk step: move the position by the direction pair
/// times `speed`, exactly, and point the heading along the pair. This is
/// the whole tick except for the draws themselves, so it is verified for
/// every direction pair and every speed a caller may inject.
pub fn walk(physics: &mut Physics, dx: i16, dy: i16, speed: i64)
    requires
        -1 <= dx <= 1,
        -1 <= dy <= 1,
        dx == 1 ==> i64::MIN <= old(physics).x + speed <= i64::MAX,
        dx == -1 ==> i64::MIN <= old(physics).x - speed <= i64::MAX,
        dy == 1 ==> i64::MIN <= old(physics).y + speed <= i64::MAX,
        dy == -1 ==> i64::MIN <= old(physics).y - speed <= i64::MAX,
    ensures
        *final(physics) == walked(*old(physics), dx as int, dy as int, speed as int),
{
    let p = *physics;
    *physics = Physics {
        x: step(p.x, dx, speed),
        y: step(p.y, dy, speed),
        size: p.size,
        rotation: heading(dx, dy, p.rotation),
    };
}

impl Behavior {
    /// One random-walk tick: draw a direction pair through `rand`, then take
    /// the deterministic [`walk`] step with it. The drawn pair is returned
    /// so a caller can relate the new state to its own draws; everything but
    /// the physics state is left untouched.
    pub fn apply_behavior(&self, entity: &mut Entity, speed: i64) -> (dirs: (i16, i16))
        requires
            walk_bounds(old(entity).physics, speed as int),
        ensures
            -1 <= dirs.0 <= 1,
            -1 <= dirs.1 <= 1,
            final(entity).physics == walked(
                old(entity).physics,
                dirs.0 as int,
                dirs.1 as int,
                speed as int,
            ),
            final(entity).renderer == old(entity).renderer,
            final(entity).behavior == old(entity).behavior,
            final(entity).id == old(entity).id,
    {
        let dx = draw_direction();
        let dy = draw_direction();
        let mut p = entity.physics;
        walk(&mut p, dx, dy, speed);
        entity.physics = p;
        (dx, dy)
    }
}

/// Law: the heading table is exhaustive over the nine direction pairs, and
/// only the (0, 0) pair preserves the previous heading.
pub proof fn lemma_heading_table(rotation: int)
    ensures
        heading_after(-1, -1, rotation) == -1,
        heading_after(-1, 0, rotation) == -2,
        heading_after(-1, 1, rotation) == -3,
        heading_after(1, -1, rotation) == 1,
        heading_after(1, 0, rotation) == 2,
        heading_after(1, 1, rotation) == 3,
        heading_after(0, -1, rotation) == 0,
        heading_after(0, 1, rotation) == 4,
        heading_after(0, 0, rotation) == rotation,
{
}

/// Law: a walk step with a nonzero direction pair and a nonzero speed moves
/// the position; staying put takes the (0, 0) pair or a zero speed.
pub proof fn lemma_walk_moves(pre: Physics, dx: int, dy: int, speed: int)
    requires
        -1 <= dx <= 1,
        -1 <= dy <= 1,
        !(dx == 0 && dy == 0),
        speed != 0,
        walk_bounds(pre, speed),
    ensures
        walked(pre, dx, dy, speed).x != pre.x || walked(pre, dx, dy, speed).y != pre.y,
{
    if dx == 1 {
        assert(dx * speed == speed) by (nonlinear_arith)
            requires
                dx == 1,
        ;
    } else if dx == -1 {
        assert(dx * speed == -speed) by (nonlinear_arith)
            requires
                dx == -1,
        ;
    } else if dy == 1 {
        assert(dy * speed == speed) by (nonlinear_arith)
            requires
                dy == 1,
        ;
    } else {
        assert(dy * speed == -speed) by (nonlinear_arith)
            requires
                dy == -1,
        ;
    }
}

/// Law: a walk step at zero speed leaves the position in place (the heading
/// may still turn).
pub proof fn lemma_zero_speed_stays(pre: Physics, dx: int, dy: int)
    requires
        -1 <= dx <= 1,
        -1 <= dy <= 1,
    ensures
        walked(pre, dx, dy, 0).x == pre.x,
        walked(pre, dx, dy, 0).y == pre.y,
{
    assert(dx * 0 == 0);
    assert(dy * 0 == 0);
}

} // verus!
