//! End-to-end tests of the particle simulation: the direction table, the
//! exact position arithmetic, the spawner's fixed population, the unclamped
//! position-derived colors, the draw-command geometry, and a full update
//! tick over a spawned population.

use particles::app::App;
use particles::fixed::FP_ONE;
use particles::model::{Behavior, Color, Entity, Physics, Renderer};
use particles::render::Shape;
use particles::spawn::{color_generator, gaussian_dots_generator, SPAWN_COUNT, SPAWN_SIZE};
use particles::walk::walk;

/// Whole pixels to fixed-point units.
fn px(v: i64) -> i64 {
    v * FP_ONE
}

fn physics_at(x: i64, y: i64) -> Physics {
    Physics { x, y, size: px(10), rotation: 0 }
}

fn white() -> Color {
    Color { red: FP_ONE, green: FP_ONE, blue: FP_ONE, alpha: FP_ONE }
}

/// The direction table, in eighth turns, with the previous heading for the
/// stay-put pair.
fn expected_heading(dx: i64, dy: i64, previous: i32) -> i32 {
    match (dx, dy) {
        (-1, -1) => -1,
        (-1, 0) => -2,
        (-1, 1) => -3,
        (1, -1) => 1,
        (1, 0) => 2,
        (1, 1) => 3,
        (0, -1) => 0,
        (0, 1) => 4,
        _ => previous,
    }
}

fn spawn_positions(n: usize) -> Vec<(i64, i64)> {
    let mut positions = Vec::new();
    let mut i: i64 = 0;
    while positions.len() < n {
        positions.push((px(i % 800), px((i * 7) % 500)));
        i += 1;
    }
    positions
}

#[test]
fn direction_table_is_exhaustive() {
    for dx in [-1i16, 0, 1] {
        for dy in [-1i16, 0, 1] {
            let mut p = physics_at(px(100), px(100));
            p.rotation = 7;
            walk(&mut p, dx, dy, 0);
            assert_eq!(p.rotation, expected_heading(dx as i64, dy as i64, 7));
        }
    }
}

#[test]
fn stay_put_pair_leaves_heading_unchanged() {
    let mut p = physics_at(px(3), px(4));
    p.rotation = -3;
    walk(&mut p, 0, 0, px(2));
    assert_eq!(p.rotation, -3);
    assert_eq!(p.x, px(3));
    assert_eq!(p.y, px(4));
}

#[test]
fn walk_moves_position_exactly() {
    let mut p = physics_at(px(100), px(50));
    walk(&mut p, 1, -1, 1536);
    assert_eq!(p.x, px(100) + 1536);
    assert_eq!(p.y, px(50) - 1536);
    assert_eq!(p.size, px(10));
    assert_eq!(p.rotation, 1);
}

#[test]
fn walk_accepts_negative_speed() {
    let mut p = physics_at(0, 0);
    walk(&mut p, 1, 0, -2048);
    assert_eq!(p.x, -2048);
    assert_eq!(p.y, 0);
    assert_eq!(p.rotation, 2);
}

#[test]
fn spawner_count_ignores_requested_size() {
    let positions = spawn_positions(320);
    let few = gaussian_dots_generator(5, 800, 500, &positions);
    assert_eq!(few.len(), SPAWN_COUNT);
    let many = gaussian_dots_generator(1000, 800, 500, &positions);
    assert_eq!(many.len(), SPAWN_COUNT);
    assert_eq!(SPAWN_COUNT, 300);
}

#[test]
fn spawner_entity_fields() {
    let mut positions = spawn_positions(300);
    positions[0] = (px(400), px(250));
    let entities = gaussian_dots_generator(300, 800, 500, &positions);
    let first = &entities[0];
    assert_eq!(first.physics.x, px(400));
    assert_eq!(first.physics.y, px(250));
    assert_eq!(first.physics.size, SPAWN_SIZE);
    assert_eq!(first.physics.rotation, 0);
    assert_eq!(first.behavior, Some(Behavior::Walker));
    assert_eq!(first.id, 0);
    match first.renderer {
        Renderer::Circle { color } => {
            assert_eq!(color.red, 512);
            assert_eq!(color.green, 512);
            assert_eq!(color.blue, 0);
            assert_eq!(color.alpha, FP_ONE);
        }
        _ => panic!("spawned entity is not a circle"),
    }
    assert_eq!(entities[123].id, 123);
    assert_eq!(entities[299].id, 299);
}

#[test]
fn color_is_position_over_extent_unclamped() {
    let c = color_generator(px(1000), px(250), 800, 500);
    assert_eq!(c.red, 1280);
    assert_eq!(c.red as f64 / FP_ONE as f64, 1.25);
    assert_eq!(c.green, 512);
    assert_eq!(c.green as f64 / FP_ONE as f64, 0.5);
    assert_eq!(c.blue, 0);
    assert_eq!(c.alpha, FP_ONE);
}

#[test]
fn color_keeps_negative_channels() {
    let c = color_generator(-px(100), -px(125), 800, 500);
    assert_eq!(c.red, -128);
    assert_eq!(c.green, -256);
}

#[test]
fn square_draw_geometry() {
    let p = Physics { x: px(10), y: px(5), size: px(10), rotation: 3 };
    let shape = Renderer::Square { color: white() }.draw(p);
    match shape {
        Shape::Rect(r) => {
            assert_eq!(r.side, px(10));
            assert_eq!(r.corner_x, px(5));
            assert_eq!(r.corner_y, 0);
            assert_eq!(r.rotation, 3);
            assert_eq!(r.color, white());
            assert_eq!(2 * r.corner_x + r.side, 2 * p.x);
            assert_eq!(2 * r.corner_y + r.side, 2 * p.y);
        }
        _ => panic!("square renderer did not emit a rectangle"),
    }
}

#[test]
fn square_odd_size_truncates_toward_zero() {
    let p = Physics { x: 100, y: 100, size: 5, rotation: 0 };
    let shape = Renderer::Square { color: white() }.draw(p);
    match shape {
        Shape::Rect(r) => {
            assert_eq!(r.corner_x, 98);
            assert_eq!(r.corner_y, 98);
        }
        _ => panic!("square renderer did not emit a rectangle"),
    }
}

#[test]
fn arrow_draw_geometry() {
    let p = Physics { x: px(20), y: px(30), size: px(10), rotation: -2 };
    let shape = Renderer::Arrow { color: white() }.draw(p);
    match shape {
        Shape::Triangle(t) => {
            assert_eq!((t.x0, t.y0), (0, -5120));
            assert_eq!((t.x1, t.y1), (-3413, 5120));
            assert_eq!((t.x2, t.y2), (3413, 5120));
            assert_eq!(t.trans_x, px(20));
            assert_eq!(t.trans_y, px(30) - 5120);
            assert_eq!(t.rotation, -2);
            // The centroid sits exactly on the position horizontally, and a
            // third of the size above it vertically.
            assert_eq!(t.x0 + t.x1 + t.x2 + 3 * t.trans_x, 3 * p.x);
            assert_eq!(t.y0 + t.y1 + t.y2 + 3 * t.trans_y, 3 * p.y - px(10));
        }
        _ => panic!("arrow renderer did not emit a triangle"),
    }
}

#[test]
fn circle_draw_geometry() {
    let p = Physics { x: px(10), y: px(5), size: px(10), rotation: 4 };
    let shape = Renderer::Circle { color: white() }.draw(p);
    match shape {
        Shape::Ellipse(e) => {
            assert_eq!(e.side, px(10));
            assert_eq!(e.corner_x, px(5));
            assert_eq!(e.corner_y, 0);
        }
        _ => panic!("circle renderer did not emit an ellipse"),
    }
}

#[test]
fn render_emits_one_shape_per_entity_in_order() {
    let entities = vec![
        Entity {
            physics: physics_at(px(1), px(2)),
            renderer: Renderer::Square { color: white() },
            behavior: None,
            id: 0,
        },
        Entity {
            physics: physics_at(px(3), px(4)),
            renderer: Renderer::Arrow { color: white() },
            behavior: Some(Behavior::Walker),
            id: 1,
        },
        Entity {
            physics: physics_at(px(5), px(6)),
            renderer: Renderer::Circle { color: white() },
            behavior: Some(Behavior::Walker),
            id: 2,
        },
    ];
    let app = App {
        entities,
        background_color: Color { red: 0, green: FP_ONE, blue: 0, alpha: FP_ONE },
    };
    let shapes = app.render();
    assert_eq!(shapes.len(), 3);
    assert!(matches!(shapes[0], Shape::Rect(_)));
    assert!(matches!(shapes[1], Shape::Triangle(_)));
    assert!(matches!(shapes[2], Shape::Ellipse(_)));
    match &shapes[0] {
        Shape::Rect(r) => assert_eq!(r.corner_x, px(1) - px(5)),
        _ => unreachable!(),
    }
}

#[test]
fn update_rearms_and_steps_every_entity() {
    let positions = spawn_positions(300);
    let entities = gaussian_dots_generator(300, 800, 500, &positions);
    let before = entities.clone();
    let mut app = App {
        entities,
        background_color: Color { red: 0, green: FP_ONE, blue: 0, alpha: FP_ONE },
    };
    let speed: i64 = 1536;
    let speeds = vec![speed; 300];
    app.update(&speeds);
    assert_eq!(app.entities.len(), 300);
    for (pre, post) in before.iter().zip(app.entities.iter()) {
        assert_eq!(post.behavior, Some(Behavior::Walker));
        assert_eq!(post.renderer, pre.renderer);
        assert_eq!(post.id, pre.id);
        assert_eq!(post.physics.size, pre.physics.size);
        let sx = post.physics.x - pre.physics.x;
        let sy = post.physics.y - pre.physics.y;
        assert!(sx == -speed || sx == 0 || sx == speed);
        assert!(sy == -speed || sy == 0 || sy == speed);
        let dx = sx.signum();
        let dy = sy.signum();
        assert_eq!(post.physics.rotation, expected_heading(dx, dy, pre.physics.rotation));
    }
}

#[test]
fn update_at_zero_speed_only_turns() {
    let positions = spawn_positions(300);
    let entities = gaussian_dots_generator(300, 800, 500, &positions);
    let before = entities.clone();
    let mut app = App {
        entities,
        background_color: Color { red: 0, green: 0, blue: 0, alpha: FP_ONE },
    };
    let speeds = vec![0i64; 300];
    app.update(&speeds);
    for (pre, post) in before.iter().zip(app.entities.iter()) {
        assert_eq!(post.physics.x, pre.physics.x);
        assert_eq!(post.physics.y, pre.physics.y);
        assert_eq!(post.behavior, Some(Behavior::Walker));
        assert!(post.physics.rotation == pre.physics.rotation || (-3..=4).contains(&post.physics.rotation));
    }
}

#[test]
fn update_leaves_inert_entities_alone() {
    let inert = Entity {
        physics: physics_at(px(7), px(8)),
        renderer: Renderer::Square { color: white() },
        behavior: None,
        id: 42,
    };
    let mut app = App {
        entities: vec![inert],
        background_color: Color { red: 0, green: 0, blue: 0, alpha: FP_ONE },
    };
    let speeds = vec![4096i64; 1];
    app.update(&speeds);
    assert_eq!(app.entities[0], inert);
}
