//! A small particle simulation: a population of colored entities is spawned
//! around the middle of an 800 by 500 viewport, and each frame every entity
//! takes one step of an independent random walk, its heading recomputed from
//! the step's direction.
//!
//! All quantities are held in fixed-point units (see [`fixed`]): the graphics
//! front end converts them to its own floating-point coordinates when it
//! executes the draw commands this library produces.

pub mod app;
pub mod fixed;
pub mod model;
pub mod render;
pub mod spawn;
pub mod walk;
