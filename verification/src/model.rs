//! The data model: physics state, colors, and the entity that ties one
//! physics state to a renderer and an optional behavior.

use vstd::prelude::*;

verus! {

/// An RGBA color. Channels are fixed-point ([`crate::fixed::FP_ONE`] is full
/// intensity) and deliberately unclamped: a Gaussian spawn position in the
/// distribution's tail may produce a channel outside the nominal range, and
/// that is preserved, not hidden.
#[derive(Clone, Copy, Debug, PartialEq, Eq, Structural)]
pub struct Color {
    pub red: i64,
    pub green: i64,
    pub blue: i64,
    pub alpha: i64,
}

/// Passive per-entity state: position, size and heading.
///
/// `x`, `y` and `size` are fixed-point pixels. `rotation` counts eighth
/// turns: one unit is a 45 degree step clockwise, so 2 faces right, -2 faces
/// left, 4 faces down. The walk only ever produces values in -3..=4, but any
/// value is admitted; nothing here is enforced, matching the loose contract
/// of the simulation.
#[derive(Clone, Copy, Debug, PartialEq, Eq, Structural)]
pub struct Physics {
    pub x: i64,
    pub y: i64,
    pub size: i64,
    pub rotation: i32,
}

/// A per-entity drawing strategy; each variant fixes its color at
/// construction.
#[derive(Clone, Copy, Debug, PartialEq, Eq, Structural)]
pub enum Renderer {
    /// An axis-aligned square of side `size`, rotated about its top-left
    /// corner after centering.
    Square { color: Color },
    /// An isosceles triangle pointing up before rotation.
    Arrow { color: Color },
    /// A circle inscribed in the `size` by `size` bounding square; never
    /// rotated.
    Circle { color: Color },
}

/// A per-tick mutation strategy. The only one is the random walk; it carries
/// no state, so a fresh copy is observably identical to the one it replaces.
#[derive(Clone, Copy, Debug, PartialEq, Eq, Structural)]
pub enum Behavior {
    Walker,
}

/// One simulated particle.
#[derive(Clone, Copy, Debug, PartialEq, Eq)]
pub struct Entity {
    pub physics: Physics,
    pub renderer: Renderer,
    pub behavior: Option<Behavior>,
    pub id: u32,
}

} // verus!
