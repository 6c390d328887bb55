use bouncing_paths::color::{background, palette_color, Color, PALETTE_SIZE};
use bouncing_paths::geometry::{Bounds, Point, Velocity, Vertex};
use bouncing_paths::model::{model, update, Model, PATH_COUNT};
use bouncing_paths::path::{
    Path, CURRENT_WEIGHT, HISTORY_CAP, MAX_VERTICES, MIN_VERTICES, SPEED_LIMIT, TRAIL_WEIGHT,
};

fn wide_bounds() -> Bounds {
    Bounds { left: -100, right: 100, bottom: -100, top: 100 }
}

fn vertex(x: i64, y: i64, dx: i64, dy: i64) -> Vertex {
    Vertex { position: Point { x, y }, velocity: Velocity { dx, dy } }
}

#[test]
fn vertex_moves_without_flip_inside() {
    let b = wide_bounds();
    let mut v = vertex(0, 0, 1, 2);
    v.update(&b);
    assert_eq!(v.position, Point { x: 1, y: 2 });
    assert_eq!(v.velocity, Velocity { dx: 1, dy: 2 });
}

#[test]
fn vertex_flips_only_x_past_right_edge() {
    let b = Bounds { left: -10, right: 10, bottom: -10, top: 10 };
    let mut v = vertex(9, 1, 2, 3);
    v.update(&b);
    assert_eq!(v.position, Point { x: 11, y: 4 });
    assert_eq!(v.velocity, Velocity { dx: -2, dy: 3 });
}

#[test]
fn vertex_flips_only_x_past_left_edge() {
    let b = Bounds { left: -10, right: 10, bottom: -10, top: 10 };
    let mut v = vertex(-9, 0, -2, 1);
    v.update(&b);
    assert_eq!(v.position, Point { x: -11, y: 1 });
    assert_eq!(v.velocity, Velocity { dx: 2, dy: 1 });
}

#[test]
fn vertex_flips_only_y_past_bottom_and_top_edges() {
    let b = Bounds { left: -10, right: 10, bottom: -10, top: 10 };
    let mut low = vertex(0, -9, 1, -2);
    low.update(&b);
    assert_eq!(low.position, Point { x: 1, y: -11 });
    assert_eq!(low.velocity, Velocity { dx: 1, dy: 2 });

    let mut high = vertex(0, 9, 1, 2);
    high.update(&b);
    assert_eq!(high.position, Point { x: 1, y: 11 });
    assert_eq!(high.velocity, Velocity { dx: 1, dy: -2 });
}

#[test]
fn vertex_flips_both_components_in_a_corner() {
    let b = Bounds { left: -10, right: 10, bottom: -10, top: 10 };
    let mut v = vertex(9, 9, 2, 3);
    v.update(&b);
    assert_eq!(v.position, Point { x: 11, y: 12 });
    assert_eq!(v.velocity, Velocity { dx: -2, dy: -3 });
}

#[test]
fn vertex_on_the_edge_does_not_flip() {
    let b = Bounds { left: -10, right: 10, bottom: -10, top: 10 };
    let mut v = vertex(8, 0, 2, 0);
    v.update(&b);
    assert_eq!(v.position, Point { x: 10, y: 0 });
    assert_eq!(v.velocity, Velocity { dx: 2, dy: 0 });
}

#[test]
fn bounce_returns_to_the_previous_position() {
    let b = Bounds { left: -10, right: 10, bottom: -10, top: 10 };
    let mut v = vertex(9, 0, 2, 0);
    v.update(&b);
    assert_eq!(v.position, Point { x: 11, y: 0 });
    v.update(&b);
    assert_eq!(v.position, Point { x: 9, y: 0 });
    assert_eq!(v.velocity, Velocity { dx: -2, dy: 0 });
}

#[test]
fn can_step_refuses_coordinate_overflow() {
    let b = wide_bounds();
    let v = vertex(i64::MAX, 0, 1, 0);
    assert!(!v.can_step_now(&b));
}

#[test]
fn can_step_refuses_unnegatable_velocity_on_a_bounce() {
    let b = Bounds { left: -10, right: 10, bottom: -10, top: 10 };
    let v = vertex(0, 0, i64::MIN, 0);
    assert!(!v.can_step_now(&b));
    let ok = vertex(0, 0, 1, 1);
    assert!(ok.can_step_now(&b));
}

#[test]
fn palette_holds_the_five_colors() {
    assert_eq!(PALETTE_SIZE, 5);
    assert_eq!(palette_color(0), Color { red: 255, green: 250, blue: 250 });
    assert_eq!(palette_color(1), Color { red: 255, green: 20, blue: 147 });
    assert_eq!(palette_color(2), Color { red: 64, green: 224, blue: 208 });
    assert_eq!(palette_color(3), Color { red: 154, green: 205, blue: 50 });
    assert_eq!(palette_color(4), Color { red: 211, green: 211, blue: 211 });
}

#[test]
fn frame_is_cleared_to_black() {
    assert_eq!(background(), Color { red: 0, green: 0, blue: 0 });
}

#[test]
fn from_vertices_closes_the_polyline() {
    let vs = vec![vertex(1, 2, 0, 0), vertex(3, 4, 0, 0), vertex(5, 6, 0, 0)];
    let p = Path::from_vertices(vs, 2);
    assert_eq!(p.points.len(), 4);
    assert_eq!(p.points[3], p.points[0]);
    assert_eq!(p.points[0].position, Point { x: 1, y: 2 });
    assert_eq!(p.color, Color { red: 64, green: 224, blue: 208 });
    assert!(p.history.is_empty());
}

#[test]
fn update_records_the_previous_shape() {
    let b = wide_bounds();
    let mut p = Path::from_vertices(vec![vertex(0, 0, 1, 0)], 0);
    p.update(&b);
    assert_eq!(p.history.len(), 1);
    assert_eq!(p.history[0][0].position, Point { x: 0, y: 0 });
    assert_eq!(p.points[0].position, Point { x: 1, y: 0 });
    assert_eq!(p.points[1].position, Point { x: 1, y: 0 });
}

#[test]
fn full_history_drops_the_oldest_shape() {
    let b = wide_bounds();
    let mut p = Path::from_vertices(vec![vertex(0, 0, 1, 0)], 0);
    for _ in 0..(HISTORY_CAP + 3) {
        p.update(&b);
    }
    assert_eq!(p.history.len(), HISTORY_CAP);
    for (k, shape) in p.history.iter().enumerate() {
        assert_eq!(shape[0].position, Point { x: 3 + k as i64, y: 0 });
    }
    assert_eq!(p.points[0].position, Point { x: (HISTORY_CAP as i64) + 3, y: 0 });
}

#[test]
fn display_lists_trails_then_the_current_shape() {
    let b = wide_bounds();
    let mut p = Path::from_vertices(vec![vertex(0, 0, 1, 0), vertex(5, 5, 0, 1)], 1);
    p.update(&b);
    p.update(&b);
    let lines = p.display();
    assert_eq!(lines.len(), 3);
    for line in &lines[..2] {
        assert_eq!(line.weight, TRAIL_WEIGHT);
        assert_eq!(line.color, p.color);
    }
    let current = &lines[2];
    assert_eq!(current.weight, CURRENT_WEIGHT);
    assert_eq!(current.color, p.color);
    assert_eq!(lines[0].points[0], Point { x: 0, y: 0 });
    assert_eq!(lines[1].points[0], Point { x: 1, y: 0 });
    assert_eq!(current.points[0], Point { x: 2, y: 0 });
    assert_eq!(current.points.len(), p.points.len());
    assert_eq!(current.points[1], Point { x: 5, y: 7 });
    assert_eq!(current.points[2], current.points[0]);
}

#[test]
fn spawned_path_respects_the_hard_coded_ranges() {
    let b = Bounds { left: -50, right: 50, bottom: -30, top: 30 };
    for _ in 0..50 {
        let p = Path::new(&b);
        assert!(p.points.len() >= MIN_VERTICES + 1);
        assert!(p.points.len() <= MAX_VERTICES);
        assert_eq!(p.points[p.points.len() - 1], p.points[0]);
        assert!(p.history.is_empty());
        for v in &p.points {
            assert!(v.position.x >= b.left && v.position.x < b.right);
            assert!(v.position.y >= b.bottom && v.position.y < b.top);
            assert!(v.velocity.dx >= -SPEED_LIMIT && v.velocity.dx < SPEED_LIMIT);
            assert!(v.velocity.dy >= -SPEED_LIMIT && v.velocity.dy < SPEED_LIMIT);
        }
        let in_palette = (0..PALETTE_SIZE).any(|i| palette_color(i) == p.color);
        assert!(in_palette);
    }
}

#[test]
fn unit_window_pins_every_spawn_position() {
    let b = Bounds { left: 0, right: 1, bottom: 0, top: 1 };
    for _ in 0..10 {
        let p = Path::new(&b);
        for v in &p.points {
            assert_eq!(v.position, Point { x: 0, y: 0 });
        }
    }
}

#[test]
fn model_spawns_the_fixed_number_of_paths() {
    let b = Bounds { left: -50, right: 50, bottom: -30, top: 30 };
    let m = model(&b);
    assert_eq!(m.path.len(), PATH_COUNT);
    for p in &m.path {
        assert!(p.points.len() >= MIN_VERTICES + 1);
        assert!(p.points.len() <= MAX_VERTICES);
        assert!(p.history.is_empty());
    }
}

#[test]
fn update_steps_every_path_of_the_model() {
    let b = wide_bounds();
    let first = Path::from_vertices(vec![vertex(0, 0, 1, 2)], 0);
    let second = Path::from_vertices(vec![vertex(10, 10, -3, 0)], 1);
    let mut m = Model { path: vec![first, second] };
    assert!(m.can_update(&b));
    update(&mut m, &b);
    assert_eq!(m.path.len(), 2);
    assert_eq!(m.path[0].points[0].position, Point { x: 1, y: 2 });
    assert_eq!(m.path[1].points[0].position, Point { x: 7, y: 10 });
    assert_eq!(m.path[0].history.len(), 1);
    assert_eq!(m.path[1].history.len(), 1);
}

#[test]
fn model_display_concatenates_path_strokes_in_order() {
    let b = wide_bounds();
    let first = Path::from_vertices(vec![vertex(0, 0, 1, 0)], 0);
    let second = Path::from_vertices(vec![vertex(5, 5, 0, 1)], 3);
    let mut m = Model { path: vec![first, second] };
    update(&mut m, &b);
    let lines = m.display();
    assert_eq!(lines.len(), 4);
    assert_eq!(lines[0].weight, TRAIL_WEIGHT);
    assert_eq!(lines[0].color, palette_color(0));
    assert_eq!(lines[1].weight, CURRENT_WEIGHT);
    assert_eq!(lines[1].color, palette_color(0));
    assert_eq!(lines[2].weight, TRAIL_WEIGHT);
    assert_eq!(lines[2].color, palette_color(3));
    assert_eq!(lines[3].weight, CURRENT_WEIGHT);
    assert_eq!(lines[3].color, palette_color(3));
    assert_eq!(lines[1].points[0], Point { x: 1, y: 0 });
    assert_eq!(lines[3].points[0], Point { x: 5, y: 6 });
}

#[test]
fn can_update_spots_a_single_bad_vertex() {
    let b = wide_bounds();
    let good = Path::from_vertices(vec![vertex(0, 0, 1, 1)], 0);
    let bad = Path::from_vertices(vec![vertex(i64::MAX, 0, 1, 0)], 1);
    let m = Model { path: vec![good, bad] };
    assert!(!m.can_update(&b));
}
