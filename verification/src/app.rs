//! The application state: the entity collection and the background color,
//! with the two per-frame passes. The render pass computes one draw command
//! per entity in container order; the update pass applies each armed
//! behavior and re-arms it with a fresh walker, the ownership idiom the
//! simulation uses for its stateless strategy.

use crate::model::{Behavior, Entity};
use crate::render::{draw_ok, shape_for, Shape};
use crate::walk::{walk_bounds, walk_step, walked};
use vstd::prelude::*;

verus! {

/// What one update tick does to one entity given its speed sample: an armed
/// entity takes a walk step and is re-armed with a fresh walker; an inert
/// one is left exactly as it was. Renderer and id never change.
pub open spec fn updated_entity(pre: Entity, post: Entity, speed: int) -> bool {
    if pre.behavior is Some {
        &&& post.behavior == Some(Behavior::Walker)
        &&& walk_step(pre.physics, post.physics, speed)
        &&& post.renderer == pre.renderer
        &&& post.id == pre.id
    } else {
        post == pre
    }
}

/// The whole simulation: the entities in draw order and the clear color.
pub struct App {
    pub entities: Vec<Entity>,
    pub background_color: crate::model::Color,
}

impl App {
    /// The render pass's compute half: one draw command per entity, in
    /// container order. The front end clears the surface to the background
    /// color and then executes the commands in order.
    pub fn render(&self) -> (shapes: Vec<Shape>)
        requires
            forall|i: int|
                0 <= i < self.entities@.len() ==> draw_ok(
                    self.entities@[i].renderer,
                    self.entities@[i].physics,
                ),
        ensures
            shapes@.len() == self.entities@.len(),
            forall|i: int|
                0 <= i < shapes@.len() ==> shapes@[i] == shape_for(
                    self.entities@[i].renderer,
                    self.entities@[i].physics,
                ),
    {
        let mut shapes: Vec<Shape> = Vec::with_capacity(self.entities.len());
        let mut i: usize = 0;
        while i < self.entities.len()
            invariant
                i <= self.entities@.len(),
                shapes@.len() == i,
                forall|j: int|
                    0 <= j < self.entities@.len() ==> draw_ok(
                        self.entities@[j].renderer,
                        self.entities@[j].physics,
                    ),
                forall|j: int|
                    0 <= j < i ==> shapes@[j] == shape_for(
                        self.entities@[j].renderer,
                        self.entities@[j].physics,
                    ),
            decreases self.entities@.len() - i,
        {
            let entity = self.entities[i];
            shapes.push(entity.renderer.draw(entity.physics));
            i += 1;
        }
        shapes
    }

    /// The update tick: every armed entity takes one random-walk step at its
    /// speed sample from `speeds` and is re-armed; inert entities are left
    /// alone. The collection's length and order, every renderer, every id
    /// and the background color are all preserved.
    pub fn update(&mut self, speeds: &Vec<i64>)
        requires
            old(self).entities@.len() <= speeds@.len(),
            forall|i: int|
                0 <= i < old(self).entities@.len() && old(self).entities@[i].behavior is Some
                    ==> walk_bounds(old(self).entities@[i].physics, speeds@[i] as int),
        ensures
            final(self).entities@.len() == old(self).entities@.len(),
            final(self).background_color == old(self).background_color,
            forall|i: int|
                0 <= i < old(self).entities@.len() ==> updated_entity(
                    old(self).entities@[i],
                    final(self).entities@[i],
                    speeds@[i] as int,
                ),
    {
        let mut i: usize = 0;
        while i < self.entities.len()
            invariant
                i <= self.entities@.len(),
                self.entities@.len() == old(self).entities@.len(),
                self.background_color == old(self).background_color,
                old(self).entities@.len() <= speeds@.len(),
                forall|j: int|
                    0 <= j < old(self).entities@.len() && old(self).entities@[j].behavior is Some
                        ==> walk_bounds(old(self).entities@[j].physics, speeds@[j] as int),
                forall|j: int|
                    0 <= j < i ==> updated_entity(
                        old(self).entities@[j],
                        self.entities@[j],
                        speeds@[j] as int,
                    ),
                forall|j: int| i <= j < self.entities@.len() ==> self.entities@[j] == old(self).entities@[j],
            decreases self.entities@.len() - i,
        {
            let mut entity = self.entities[i];
            match entity.behavior {
                Some(behavior) => {
                    let ghost pre = entity;
                    let dirs = behavior.apply_behavior(&mut entity, speeds[i]);
                    entity.behavior = Some(Behavior::Walker);
                    proof {
                        assert(entity.physics == walked(
                            pre.physics,
                            dirs.0 as int,
                            dirs.1 as int,
                            speeds@[i as int] as int,
                        ));
                    }
                    self.entities[i] = entity;
                },
                None => {},
            }
            i += 1;
        }
    }
}

} // verus!
