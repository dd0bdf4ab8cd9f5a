use koch::actor::{ActorEvent, Key};
use koch::geometry::{Division, Geometry, Segment, SEED_SIDE};
use koch::lines::{line_nodes, rebuild, LineNode, Placement};
use rust_animation::layer::Layer;
use std::cell::{Cell, RefCell};
use stretch::geometry::Point;

const RAD_TO_DEG: f64 = 180.0 / std::f64::consts::PI;
const DEG_TO_RAD: f64 = std::f64::consts::PI / 180.0;

fn stage() -> Layer {
    Layer::new("stage".to_string(), 1920, 1080, None)
}

fn random_point(side: u32) -> Point<f64> {
    Point { x: rand::random::<f64>() * side as f64, y: rand::random::<f64>() * side as f64 }
}

fn endpoints(line: LineNode) -> Segment<f64> {
    let (x, y) = line.center();
    let half = line.height as f64 / 2.0;
    let angle = -1.0 * line.rotation as f64 * DEG_TO_RAD;
    Segment {
        start: Point { x: x as f64 - half * angle.sin(), y: y as f64 - half * angle.cos() },
        end: Point { x: x as f64 + half * angle.sin(), y: y as f64 + half * angle.cos() },
    }
}

fn between(start: Point<f64>, end: Point<f64>, numerator: u32, denominator: u32) -> Point<f64> {
    let fraction = numerator as f64 / denominator as f64;
    Point { x: start.x + (end.x - start.x) * fraction, y: start.y + (end.y - start.y) * fraction }
}

fn cross(start: Point<f64>, end: Point<f64>) -> (Point<f64>, Point<f64>) {
    let delta_x = end.x - start.x;
    let delta_y = end.y - start.y;
    let mid_x = start.x + delta_x * 0.5;
    let mid_y = start.y + delta_y * 0.5;
    (
        Point { x: mid_x - delta_y, y: mid_y + delta_x },
        Point { x: mid_x + delta_y, y: mid_y - delta_x },
    )
}

fn place(segment: Segment<f64>) -> Placement {
    let (start, end) = (segment.start, segment.end);
    let mid = Point { x: (end.x + start.x) / 2.0, y: (end.y + start.y) / 2.0 };
    let length = ((end.x - start.x).powf(2.0) + (end.y - start.y).powf(2.0)).sqrt();
    Placement {
        start_x: start.x as i32,
        start_y: start.y as i32,
        end_x: end.x as i32,
        end_y: end.y as i32,
        line: LineNode {
            x: mid.x as i32,
            y: (mid.y - length / 2.0) as i32,
            height: length as u32,
            rotation: -(((end.x - start.x).atan2(end.y - start.y) * RAD_TO_DEG) as i32),
        },
    }
}

fn count(layer: &Layer, name: &str) -> usize {
    layer.sub_layer_list.iter().filter(|l| l.name == name).count()
}

fn markers(layer: &Layer) -> usize {
    count(layer, "start_marker") + count(layer, "end_marker")
}

fn close(a: f64, b: f64, tolerance: f64) -> bool {
    (a - b).abs() <= tolerance
}

#[test]
fn seed_leaves_one_line_and_two_markers() {
    let geometry = Geometry { random_point, endpoints, between, cross, place };
    let mut layer = stage();
    layer.needs_update = false;
    geometry.seed(&mut layer);
    assert_eq!(layer.sub_layer_list.len(), 3);
    assert_eq!(count(&layer, "line"), 1);
    assert_eq!(markers(&layer), 2);
    assert!(layer.needs_update);
}

#[test]
fn seeding_twice_leaves_one_line_and_two_markers() {
    let geometry = Geometry { random_point, endpoints, between, cross, place };
    let mut layer = stage();
    geometry.seed(&mut layer);
    geometry.seed(&mut layer);
    assert_eq!(layer.sub_layer_list.len(), 3);
    assert_eq!(count(&layer, "line"), 1);
    assert_eq!(markers(&layer), 2);
}

#[test]
fn seeding_throws_away_whatever_was_there() {
    let geometry = Geometry { random_point, endpoints, between, cross, place };
    let mut layer = stage();
    layer.add_sub_layer(Layer::new("picture".to_string(), 3, 4, None));
    geometry.seed(&mut layer);
    geometry.advance(&mut layer);
    geometry.seed(&mut layer);
    assert_eq!(layer.sub_layer_list.len(), 3);
    assert_eq!(count(&layer, "line"), 1);
    assert_eq!(markers(&layer), 2);
    assert_eq!(count(&layer, "picture"), 0);
}

#[test]
fn seed_draws_start_and_end_from_the_seed_square() {
    let asked = RefCell::new(Vec::new());
    let points = [Point { x: 10.0, y: 20.0 }, Point { x: 410.0, y: 320.0 }];
    let placed = RefCell::new(Vec::new());
    let geometry = Geometry {
        random_point: |side: u32| {
            asked.borrow_mut().push(side);
            points[asked.borrow().len() - 1]
        },
        endpoints,
        between,
        cross,
        place: |segment: Segment<f64>| {
            placed.borrow_mut().push(segment);
            place(segment)
        },
    };
    let mut layer = stage();
    geometry.seed(&mut layer);

    assert_eq!(SEED_SIDE, 1000);
    assert_eq!(*asked.borrow(), vec![1000, 1000]);
    assert_eq!(placed.borrow().len(), 1);
    assert_eq!(placed.borrow()[0].start, points[0]);
    assert_eq!(placed.borrow()[0].end, points[1]);

    let start = &layer.sub_layer_list[0];
    let end = &layer.sub_layer_list[1];
    let line = &layer.sub_layer_list[2];
    assert_eq!((start.name.as_str(), start.x, start.y), ("start_marker", 10, 20));
    assert_eq!((end.name.as_str(), end.x, end.y), ("end_marker", 410, 320));
    assert_eq!((line.name.as_str(), line.x, line.y, line.height), ("line", 210, -80, 500));
    assert_eq!(line.rotation, -53);
}

#[test]
fn seeded_points_lie_in_the_seed_square() {
    let placed = RefCell::new(Vec::new());
    let geometry = Geometry {
        random_point,
        endpoints,
        between,
        cross,
        place: |segment: Segment<f64>| {
            placed.borrow_mut().push(segment);
            place(segment)
        },
    };
    let mut layer = stage();
    for _ in 0..50 {
        geometry.seed(&mut layer);
    }
    for segment in placed.borrow().iter() {
        for p in [segment.start, segment.end] {
            assert!(0.0 <= p.x && p.x < 1000.0);
            assert!(0.0 <= p.y && p.y < 1000.0);
        }
    }
}

#[test]
fn seed_then_one_advance_gives_four_lines_and_eight_markers() {
    let placed = RefCell::new(Vec::new());
    let geometry = Geometry {
        random_point: |_side: u32| Point { x: 0.0, y: 0.0 },
        endpoints,
        between,
        cross,
        place: |segment: Segment<f64>| {
            placed.borrow_mut().push(segment);
            place(segment)
        },
    };
    let mut layer = stage();
    rebuild(&mut layer, &vec![place(Segment {
        start: Point { x: 100.0, y: 200.0 },
        end: Point { x: 700.0, y: 500.0 },
    })]);
    assert_eq!(count(&layer, "line"), 1);

    geometry.advance(&mut layer);

    assert_eq!(layer.sub_layer_list.len(), 12);
    assert_eq!(count(&layer, "line"), 4);
    assert_eq!(markers(&layer), 8);
    for i in 0..4 {
        assert_eq!(layer.sub_layer_list[3 * i].name, "start_marker");
        assert_eq!(layer.sub_layer_list[3 * i + 1].name, "end_marker");
        assert_eq!(layer.sub_layer_list[3 * i + 2].name, "line");
    }

    let chain = placed.borrow();
    assert_eq!(chain.len(), 4);
    assert_eq!(chain[0].end, chain[1].start);
    assert_eq!(chain[1].end, chain[2].start);
    assert_eq!(chain[2].end, chain[3].start);
    let tolerance = 0.02 * (600.0f64.powf(2.0) + 300.0f64.powf(2.0)).sqrt();
    assert!(close(chain[0].start.x, 100.0, tolerance) && close(chain[0].start.y, 200.0, tolerance));
    assert!(close(chain[3].end.x, 700.0, tolerance) && close(chain[3].end.y, 500.0, tolerance));
    for i in 0..3 {
        let end = &layer.sub_layer_list[3 * i + 1];
        let next = &layer.sub_layer_list[3 * (i + 1)];
        assert_eq!((end.x, end.y), (next.x, next.y));
    }
}

#[test]
fn seed_and_advance_by_keys_give_four_lines() {
    let geometry = Geometry { random_point, endpoints, between, cross, place };
    let handler = ActorEvent::new();
    let mut layer = stage();
    loop {
        handler.key_down(Key::Space, &mut layer, &geometry);
        assert_eq!(count(&layer, "line"), 1);
        assert_eq!(markers(&layer), 2);
        if layer.sub_layer_list[2].height > 0 {
            break;
        }
    }
    handler.key_down(Key::Up, &mut layer, &geometry);
    assert_eq!(count(&layer, "line"), 4);
    assert_eq!(markers(&layer), 8);
    assert_eq!(layer.sub_layer_list.len(), 12);
}

#[test]
fn two_advances_give_sixteen_lines() {
    let geometry = Geometry { random_point, endpoints, between, cross, place };
    let mut layer = stage();
    rebuild(&mut layer, &vec![place(Segment {
        start: Point { x: 100.0, y: 200.0 },
        end: Point { x: 900.0, y: 800.0 },
    })]);
    geometry.advance(&mut layer);
    geometry.advance(&mut layer);
    assert_eq!(count(&layer, "line"), 16);
    assert_eq!(markers(&layer), 32);
    assert_eq!(layer.sub_layer_list.len(), 48);
}

#[test]
fn advance_of_a_scene_without_lines_leaves_it_empty() {
    let geometry = Geometry { random_point, endpoints, between, cross, place };
    let mut layer = stage();
    layer.needs_update = false;
    geometry.advance(&mut layer);
    assert!(layer.sub_layer_list.is_empty());
    assert!(layer.needs_update);

    layer.add_sub_layer(Layer::new("start_marker".to_string(), 10, 10, None));
    layer.add_sub_layer(Layer::new("picture".to_string(), 10, 10, None));
    geometry.advance(&mut layer);
    assert!(layer.sub_layer_list.is_empty());
}

#[test]
fn advance_passes_over_a_line_of_length_zero_and_refines_the_others() {
    let geometry = Geometry { random_point, endpoints, between, cross, place };
    let long = place(Segment {
        start: Point { x: 100.0, y: 200.0 },
        end: Point { x: 900.0, y: 800.0 },
    });
    let point = place(Segment {
        start: Point { x: 50.0, y: 50.0 },
        end: Point { x: 50.0, y: 50.0 },
    });
    assert_eq!(point.line.height, 0);
    let mut layer = stage();
    rebuild(&mut layer, &vec![long, point, long]);
    geometry.advance(&mut layer);
    assert_eq!(count(&layer, "line"), 8);
    assert_eq!(markers(&layer), 16);
}

#[test]
fn advance_asks_for_the_thirds_and_for_the_bisector_of_the_middle_third() {
    let fractions = RefCell::new(Vec::new());
    let crossed = RefCell::new(Vec::new());
    let geometry = Geometry {
        random_point,
        endpoints,
        between: |start: Point<f64>, end: Point<f64>, numerator: u32, denominator: u32| {
            fractions.borrow_mut().push((numerator, denominator));
            between(start, end, numerator, denominator)
        },
        cross: |a: Point<f64>, b: Point<f64>| {
            crossed.borrow_mut().push((a, b));
            cross(a, b)
        },
        place,
    };
    let mut layer = stage();
    let first = Segment { start: Point { x: 0.0, y: 0.0 }, end: Point { x: 0.0, y: 900.0 } };
    let second = Segment { start: Point { x: 300.0, y: 0.0 }, end: Point { x: 300.0, y: 600.0 } };
    rebuild(&mut layer, &vec![place(first), place(second)]);
    geometry.advance(&mut layer);

    assert_eq!(*fractions.borrow(), vec![(1, 3), (2, 3), (1, 3), (2, 3)]);
    let crossed = crossed.borrow();
    assert_eq!(crossed.len(), 2);
    assert_eq!(crossed[0], (Point { x: 0.0, y: 300.0 }, Point { x: 0.0, y: 600.0 }));
    assert_eq!(crossed[1], (Point { x: 300.0, y: 200.0 }, Point { x: 300.0, y: 400.0 }));
}

#[test]
fn advance_puts_the_bump_on_one_of_the_two_sides() {
    let geometry = Geometry { random_point, endpoints, between, cross, place };
    let mut left = 0;
    let mut right = 0;
    for _ in 0..200 {
        let mut layer = stage();
        let upright = Segment { start: Point { x: 500.0, y: 0.0 }, end: Point { x: 500.0, y: 900.0 } };
        rebuild(&mut layer, &vec![place(upright)]);
        geometry.advance(&mut layer);
        let apex = &layer.sub_layer_list[4];
        assert_eq!(apex.name, "end_marker");
        assert_eq!(apex.y, 450);
        if apex.x == 200 {
            left += 1;
        } else {
            assert_eq!(apex.x, 800);
            right += 1;
        }
    }
    assert!(left > 0 && right > 0);
}

#[test]
fn divide_finds_the_thirds_and_the_apexes() {
    let geometry = Geometry {
        random_point: |_side: u32| Point { x: 0i64, y: 0i64 },
        endpoints: |line: LineNode| Segment {
            start: Point { x: line.x as i64, y: line.y as i64 },
            end: Point { x: line.x as i64, y: line.y as i64 + line.height as i64 },
        },
        between: |start: Point<i64>, end: Point<i64>, numerator: u32, denominator: u32| Point {
            x: start.x + (end.x - start.x) * numerator as i64 / denominator as i64,
            y: start.y + (end.y - start.y) * numerator as i64 / denominator as i64,
        },
        cross: |a: Point<i64>, b: Point<i64>| {
            let (dx, dy) = (b.x - a.x, b.y - a.y);
            let (mx, my) = ((a.x + b.x) / 2, (a.y + b.y) / 2);
            (Point { x: mx - dy, y: my + dx }, Point { x: mx + dy, y: my - dx })
        },
        place: |segment: Segment<i64>| Placement {
            start_x: segment.start.x as i32,
            start_y: segment.start.y as i32,
            end_x: segment.end.x as i32,
            end_y: segment.end.y as i32,
            line: LineNode { x: 0, y: 0, height: 1, rotation: 0 },
        },
    };
    let segment = Segment { start: Point { x: 0, y: 0 }, end: Point { x: 60, y: 30 } };
    let division: Division<i64> = geometry.divide(segment);
    assert_eq!(division.segment.start, Point { x: 0, y: 0 });
    assert_eq!(division.segment.end, Point { x: 60, y: 30 });
    assert_eq!(division.first_third, Point { x: 20, y: 10 });
    assert_eq!(division.second_third, Point { x: 40, y: 20 });
    assert_eq!(division.first_apex, Point { x: 20, y: 35 });
    assert_eq!(division.second_apex, Point { x: 40, y: -5 });
}

#[test]
fn other_keys_leave_the_scene_as_it_is() {
    let geometry = Geometry { random_point, endpoints, between, cross, place };
    let handler = ActorEvent::new();
    let mut layer = stage();
    geometry.seed(&mut layer);
    layer.needs_update = false;
    let before: Vec<(String, i32, i32, u32, i32)> = layer
        .sub_layer_list
        .iter()
        .map(|l| (l.name.clone(), l.x, l.y, l.height, l.rotation))
        .collect();
    for key in [Key::Enter, Key::Tab, Key::Backspace, Key::Escape, Key::Right, Key::Left, Key::Down] {
        handler.key_down(key, &mut layer, &geometry);
    }
    let after: Vec<(String, i32, i32, u32, i32)> = layer
        .sub_layer_list
        .iter()
        .map(|l| (l.name.clone(), l.x, l.y, l.height, l.rotation))
        .collect();
    assert_eq!(before, after);
    assert!(!layer.needs_update);
}

#[test]
fn a_placed_segment_is_read_back_close_to_where_it_was() {
    let segments = [
        ((100.0, 200.0), (700.0, 500.0)),
        ((700.0, 500.0), (100.0, 200.0)),
        ((100.0, 800.0), (900.0, 100.0)),
        ((900.0, 100.0), (100.0, 800.0)),
        ((500.0, 0.0), (500.0, 900.0)),
        ((0.0, 300.0), (900.0, 300.0)),
    ];
    for ((sx, sy), (ex, ey)) in segments {
        let segment = Segment { start: Point { x: sx, y: sy }, end: Point { x: ex, y: ey } };
        let mut layer = stage();
        rebuild(&mut layer, &vec![place(segment)]);
        let lines = line_nodes(&layer);
        assert_eq!(lines.len(), 1);
        let back = endpoints(lines[0]);
        let tolerance = 0.02 * ((ex - sx).powf(2.0) + (ey - sy).powf(2.0)).sqrt();
        assert!(close(back.start.x, sx, tolerance) && close(back.start.y, sy, tolerance));
        assert!(close(back.end.x, ex, tolerance) && close(back.end.y, ey, tolerance));
    }
}
