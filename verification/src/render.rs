//! The render pass's compute half: each renderer variant turns a physics
//! state into one draw command, a plain description of a shape under a
//! translate-then-rotate transform. Executing the commands against a real
//! drawing surface is the front end's job.

use crate::fixed::{div_fp, div_trunc};
use crate::model::{Color, Physics, Renderer};
use vstd::prelude::*;

verus! {

/// A filled axis-aligned square of side `side` with its top-left corner at
/// the origin, drawn under translation to (`corner_x`, `corner_y`) followed
/// by `rotation` eighth turns about that corner.
#[derive(Clone, Copy, Debug, PartialEq, Eq, Structural)]
pub struct RectCmd {
    pub color: Color,
    pub side: i64,
    pub corner_x: i64,
    pub corner_y: i64,
    pub rotation: i32,
}

/// A filled triangle with the given vertices, drawn under translation to
/// (`trans_x`, `trans_y`) followed by `rotation` eighth turns about that
/// point.
#[derive(Clone, Copy, Debug, PartialEq, Eq, Structural)]
pub struct TriangleCmd {
    pub color: Color,
    pub x0: i64,
    pub y0: i64,
    pub x1: i64,
    pub y1: i64,
    pub x2: i64,
    pub y2: i64,
    pub trans_x: i64,
    pub trans_y: i64,
    pub rotation: i32,
}

/// A filled ellipse inscribed in the `side` by `side` square whose top-left
/// corner is translated to (`corner_x`, `corner_y`); never rotated.
#[derive(Clone, Copy, Debug, PartialEq, Eq, Structural)]
pub struct EllipseCmd {
    pub color: Color,
    pub side: i64,
    pub corner_x: i64,
    pub corner_y: i64,
}

/// One draw command for the graphics front end.
#[derive(Clone, Copy, Debug, PartialEq, Eq)]
pub enum Shape {
    Rect(RectCmd),
    Triangle(TriangleCmd),
    Ellipse(EllipseCmd),
}

/// Half of a size, truncated toward zero.
pub open spec fn half(s: int) -> int {
    div_trunc(s, 2)
}

/// A third of a size, truncated toward zero.
pub open spec fn third(s: int) -> int {
    div_trunc(s, 3)
}

/// The top-left corner offset shared by the square and the circle stays in
/// machine range.
pub open spec fn corner_in_range(p: Physics) -> bool {
    &&& i64::MIN <= p.x - half(p.size as int) <= i64::MAX
    &&& i64::MIN <= p.y - half(p.size as int) <= i64::MAX
}

/// The arrow's anchor point (its x is the position itself) stays in machine
/// range.
pub open spec fn arrow_anchor_in_range(p: Physics) -> bool {
    i64::MIN <= p.y - half(p.size as int) <= i64::MAX
}

/// The square command for a physics state: side `size`, corner half a size
/// up and left of the position, rotated by the heading.
pub open spec fn square_cmd(color: Color, p: Physics) -> RectCmd {
    RectCmd {
        color: color,
        side: p.size,
        corner_x: (p.x - half(p.size as int)) as i64,
        corner_y: (p.y - half(p.size as int)) as i64,
        rotation: p.rotation,
    }
}

/// The arrow command for a physics state: an isosceles triangle of height
/// `size` and base two thirds of `size`, anchored half a size above the
/// position, rotated by the heading.
pub open spec fn arrow_cmd(color: Color, p: Physics) -> TriangleCmd {
    TriangleCmd {
        color: color,
        x0: 0,
        y0: (0 - half(p.size as int)) as i64,
        x1: (0 - third(p.size as int)) as i64,
        y1: half(p.size as int) as i64,
        x2: third(p.size as int) as i64,
        y2: half(p.size as int) as i64,
        trans_x: p.x,
        trans_y: (p.y - half(p.size as int)) as i64,
        rotation: p.rotation,
    }
}

/// The circle command for a physics state: inscribed in the square the
/// square command would draw, with no rotation.
pub open spec fn ellipse_cmd(color: Color, p: Physics) -> EllipseCmd {
    EllipseCmd {
        color: color,
        side: p.size,
        corner_x: (p.x - half(p.size as int)) as i64,
        corner_y: (p.y - half(p.size as int)) as i64,
    }
}

/// The draw command a renderer emits for a physics state.
pub open spec fn shape_for(r: Renderer, p: Physics) -> Shape {
    match r {
        Renderer::Square { color } => Shape::Rect(square_cmd(color, p)),
        Renderer::Arrow { color } => Shape::Triangle(arrow_cmd(color, p)),
        Renderer::Circle { color } => Shape::Ellipse(ellipse_cmd(color, p)),
    }
}

/// Whatever bound the emitting variant needs on the physics state.
pub open spec fn draw_ok(r: Renderer, p: Physics) -> bool {
    match r {
        Renderer::Arrow { .. } => arrow_anchor_in_range(p),
        _ => corner_in_range(p),
    }
}

impl Renderer {
    /// Emit this renderer's draw command for the given physics state.
    pub fn draw(&self, physics: Physics) -> (s: Shape)
        requires
            draw_ok(*self, physics),
        ensures
            s == shape_for(*self, physics),
    {
        proof {
            crate::fixed::lemma_div_trunc_bounds(physics.size as int, 2);
            crate::fixed::lemma_div_trunc_bounds(physics.size as int, 3);
        }
        match self {
            Renderer::Square { color } => {
                let h = div_fp(physics.size, 2);
                Shape::Rect(RectCmd {
                    color: *color,
                    side: physics.size,
                    corner_x: physics.x - h,
                    corner_y: physics.y - h,
                    rotation: physics.rotation,
                })
            },
            Renderer::Arrow { color } => {
                let h = div_fp(physics.size, 2);
                let t = div_fp(physics.size, 3);
                Shape::Triangle(TriangleCmd {
                    color: *color,
                    x0: 0,
                    y0: 0 - h,
                    x1: 0 - t,
                    y1: h,
                    x2: t,
                    y2: h,
                    trans_x: physics.x,
                    trans_y: physics.y - h,
                    rotation: physics.rotation,
                })
            },
            Renderer::Circle { color } => {
                let h = div_fp(physics.size, 2);
                Shape::Ellipse(EllipseCmd {
                    color: *color,
                    side: physics.size,
                    corner_x: physics.x - h,
                    corner_y: physics.y - h,
                })
            },
        }
    }
}

/// Law: before its rotation is applied, the square sits centered on the
/// entity's position: twice the corner plus the side is twice the position
/// on each axis. Stated for even fixed-point sizes, where halving is exact;
/// for an odd size the truncated corner is half a unit off.
pub proof fn lemma_square_centroid(color: Color, p: Physics)
    requires
        p.size % 2 == 0,
        corner_in_range(p),
    ensures
        2 * square_cmd(color, p).corner_x + square_cmd(color, p).side == 2 * p.x,
        2 * square_cmd(color, p).corner_y + square_cmd(color, p).side == 2 * p.y,
{
}

/// Law: the circle is inscribed in the square's bounding box, so its center
/// is the entity's position under the same conditions.
pub proof fn lemma_circle_centroid(color: Color, p: Physics)
    requires
        p.size % 2 == 0,
        corner_in_range(p),
    ensures
        2 * ellipse_cmd(color, p).corner_x + ellipse_cmd(color, p).side == 2 * p.x,
        2 * ellipse_cmd(color, p).corner_y + ellipse_cmd(color, p).side == 2 * p.y,
{
}

/// Law: before its rotation is applied, the arrow's centroid lies exactly on
/// the entity's x position (the triangle is symmetric about its anchor), but
/// a third of the size *above* its y position: three times the centroid's y
/// is three times the position's y minus twice the half-size. The y clause
/// records the actual geometry; centering the arrow vertically on the
/// position would need an anchor a sixth of the size lower.
pub proof fn lemma_arrow_centroid(color: Color, p: Physics)
    requires
        arrow_anchor_in_range(p),
    ensures
        arrow_cmd(color, p).x0 + arrow_cmd(color, p).x1 + arrow_cmd(color, p).x2 + 3
            * arrow_cmd(color, p).trans_x == 3 * p.x,
        arrow_cmd(color, p).y0 + arrow_cmd(color, p).y1 + arrow_cmd(color, p).y2 + 3
            * arrow_cmd(color, p).trans_y == 3 * p.y - 2 * half(p.size as int),
{
}

} // verus!
