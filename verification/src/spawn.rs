//! The spawner: the starting population of circle entities. The caller
//! supplies the Gaussian position samples (they are floating point at the
//! source; the library takes them as fixed-point pairs), and this module
//! builds the entities and derives each one's color from its position.

use crate::fixed::{div_fp, div_trunc, FP_ONE};
use crate::model::{Behavior, Color, Entity, Physics, Renderer};
use vstd::prelude::*;

verus! {

/// How many entities the spawner produces, whatever count it is asked for.
pub const SPAWN_COUNT: usize = 300;

/// Every spawned entity's size: ten pixels, in fixed-point units.
pub const SPAWN_SIZE: i64 = 10 * FP_ONE;

/// The color derived from a spawn position: red is the x position as a
/// fraction of the width, green the y position as a fraction of the height,
/// blue zero, alpha full. Nothing is clamped: a position outside the
/// viewport gives a channel outside the nominal range.
pub open spec fn position_color(x: int, y: int, width: u32, height: u32) -> Color {
    Color {
        red: div_trunc(x, width as int) as i64,
        green: div_trunc(y, height as int) as i64,
        blue: 0,
        alpha: FP_ONE,
    }
}

/// The entity spawned at index `i` with position sample `pos`: a circle of
/// fixed size at the sampled position, heading up, colored by position, with
/// the walker behavior armed and `i` as its id.
pub open spec fn spawned_entity(i: int, pos: (i64, i64), width: u32, height: u32) -> Entity {
    Entity {
        physics: Physics { x: pos.0, y: pos.1, size: SPAWN_SIZE, rotation: 0 },
        renderer: Renderer::Circle { color: position_color(pos.0 as int, pos.1 as int, width, height) },
        behavior: Some(Behavior::Walker),
        id: i as u32,
    }
}

/// The color for a position within a viewport: exactly the position divided
/// by the viewport extent, channel by channel, with no clamping.
pub fn color_generator(x: i64, y: i64, width: u32, height: u32) -> (c: Color)
    requires
        1 <= width,
        1 <= height,
    ensures
        c == position_color(x as int, y as int, width, height),
{
    Color {
        red: div_fp(x, width as i64),
        green: div_fp(y, height as i64),
        blue: 0,
        alpha: FP_ONE,
    }
}

/// Build the starting population from the given position samples: always
/// exactly [`SPAWN_COUNT`] entities, whatever `size` asks for (`size` only
/// pre-sizes the allocation). Entity `i` takes the `i`-th sample.
pub fn gaussian_dots_generator(
    size: usize,
    width: u32,
    height: u32,
    positions: &Vec<(i64, i64)>,
) -> (entities: Vec<Entity>)
    requires
        SPAWN_COUNT <= positions@.len(),
        1 <= width,
        1 <= height,
    ensures
        entities@.len() == SPAWN_COUNT,
        forall|i: int|
            0 <= i < SPAWN_COUNT ==> entities@[i] == spawned_entity(i, positions@[i], width, height),
{
    let mut entities: Vec<Entity> = Vec::with_capacity(size);
    let mut id: usize = 0;
    while id < SPAWN_COUNT
        invariant
            id <= SPAWN_COUNT,
            SPAWN_COUNT <= positions@.len(),
            1 <= width,
            1 <= height,
            entities@.len() == id,
            forall|i: int|
                0 <= i < id ==> entities@[i] == spawned_entity(i, positions@[i], width, height),
        decreases SPAWN_COUNT - id,
    {
        let pos = positions[id];
        entities.push(Entity {
            physics: Physics { x: pos.0, y: pos.1, size: SPAWN_SIZE, rotation: 0 },
            renderer: Renderer::Circle { color: color_generator(pos.0, pos.1, width, height) },
            behavior: Some(Behavior::Walker),
            id: id as u32,
        });
        id += 1;
    }
    entities
}

/// Law: every spawned entity comes with its behavior armed, so the first
/// update tick finds a walker on each of them.
pub proof fn lemma_spawned_armed(i: int, pos: (i64, i64), width: u32, height: u32)
    ensures
        spawned_entity(i, pos, width, height).behavior == Some(Behavior::Walker),
{
}

} // verus!
