use processing::color::Color;
use processing::geometry::GeometryKind;
use processing::graphics::{GraphicsP2D, ProtocolViolation};
use processing::mesh::{GlShape, Vertex};
use processing::processing::{Action, Callbacks, Event, Processing};
use processing::scalar::{Scalar, ScalarOp, Tape};
use processing::settings::{StrokeCap, StrokeJoin, WindowSettings};
use processing::renderer::VertexShape;
use processing::tess;

fn sc(x: f32) -> Scalar {
    Scalar { bits: x.to_bits() }
}

/// Walk the tape once, computing one value per entry.
fn eval(ops: &[ScalarOp]) -> Vec<f32> {
    let mut v: Vec<f32> = Vec::new();
    for op in ops {
        let x = match *op {
            ScalarOp::Lit(s) => f32::from_bits(s.bits),
            ScalarOp::OfInt(n) => n as f32,
            ScalarOp::Pi => std::f32::consts::PI,
            ScalarOp::Add(a, b) => v[a.index] + v[b.index],
            ScalarOp::Sub(a, b) => v[a.index] - v[b.index],
            ScalarOp::Mul(a, b) => v[a.index] * v[b.index],
            ScalarOp::Div(a, b) => v[a.index] / v[b.index],
            ScalarOp::Cos(a) => v[a.index].cos(),
            ScalarOp::Sin(a) => v[a.index].sin(),
            ScalarOp::Atan2(y, x) => v[y.index].atan2(v[x.index]),
        };
        v.push(x);
    }
    v
}

fn positions(vals: &[f32], batch: &GlShape) -> Vec<(f32, f32)> {
    batch.vertices.iter().map(|v: &Vertex| (vals[v.x.index], vals[v.y.index])).collect()
}

fn tri_area(a: (f32, f32), b: (f32, f32), c: (f32, f32)) -> f32 {
    ((b.0 - a.0) * (c.1 - a.1) - (c.0 - a.0) * (b.1 - a.1)).abs() / 2.0
}

fn batch_area(vals: &[f32], batch: &GlShape) -> f32 {
    let ps = positions(vals, batch);
    let mut total = 0.0f32;
    let mut i: usize = 0;
    while i + 3 <= ps.len() {
        total += tri_area(ps[i], ps[i + 1], ps[i + 2]);
        i += 3;
    }
    total
}

#[test]
fn default_style_is_white_fill_black_stroke() {
    let g = GraphicsP2D::default();
    assert_eq!(g.stroke_settings.fill, Some(Color::rgb(255, 255, 255)));
    assert_eq!(g.stroke_settings.stroke, Some(Color::rgb(0, 0, 0)));
    assert_eq!(f32::from_bits(g.stroke_settings.stroke_weight.bits), 1.0);
    assert!(matches!(g.stroke_settings.stroke_cap, StrokeCap::Butt));
    assert!(matches!(g.stroke_settings.stroke_join, StrokeJoin::Miter));
}

#[test]
fn window_settings_default() {
    let w = WindowSettings::default();
    assert_eq!(w.width, 800);
    assert_eq!(w.height, 600);
    assert_eq!(w.title, "Processing");
}

#[test]
fn rect_fill_is_two_triangles_covering_exactly_the_rectangle() {
    let mut g = GraphicsP2D::default();
    g.stroke(None);
    g.rect(sc(10.0), sc(20.0), sc(30.0), sc(40.0));
    let shapes = g.shapes();
    assert_eq!(shapes.len(), 1);
    assert_eq!(shapes[0].vertices.len(), 6);
    let vals = eval(g.tape.entries());
    let ps = positions(&vals, &shapes[0]);
    let area = batch_area(&vals, &shapes[0]);
    assert!((area - 30.0 * 40.0).abs() < 1e-3);
    let mut corners: Vec<(f32, f32)> = ps.clone();
    corners.sort_by(|a, b| a.partial_cmp(b).unwrap());
    corners.dedup();
    let mut expected = vec![(10.0, 20.0), (40.0, 20.0), (40.0, 60.0), (10.0, 60.0)];
    expected.sort_by(|a, b| a.partial_cmp(b).unwrap());
    assert_eq!(corners, expected);
}

#[test]
fn butt_line_is_one_quad_of_the_right_area() {
    let mut g = GraphicsP2D::default();
    g.fill(None);
    g.stroke_weight(sc(4.0));
    g.stroke_cap(StrokeCap::Butt);
    g.line((sc(1.0), sc(2.0)), (sc(9.0), sc(8.0)));
    let shapes = g.shapes();
    assert_eq!(shapes.len(), 1);
    assert_eq!(shapes[0].vertices.len(), 6);
    let vals = eval(g.tape.entries());
    let length = ((9.0f32 - 1.0).powi(2) + (8.0f32 - 2.0).powi(2)).sqrt();
    let area = batch_area(&vals, &shapes[0]);
    assert!((area - length * 4.0).abs() < 1e-2);
}

#[test]
fn round_line_adds_two_endpoint_fans() {
    let mut g = GraphicsP2D::default();
    g.fill(None);
    g.stroke_weight(sc(4.0));
    g.stroke_cap(StrokeCap::Round);
    g.line((sc(0.0), sc(0.0)), (sc(10.0), sc(0.0)));
    let shapes = g.shapes();
    assert_eq!(shapes.len(), 1);
    // two fans of CIRCLE_SEGMENTS triangles plus the two quad halves
    assert_eq!(shapes[0].vertices.len(), 3 * (2 * tess::CIRCLE_SEGMENTS + 2));
}

#[test]
fn square_line_extends_the_body() {
    let mut g = GraphicsP2D::default();
    g.fill(None);
    g.stroke_weight(sc(4.0));
    g.stroke_cap(StrokeCap::Square);
    g.line((sc(0.0), sc(0.0)), (sc(10.0), sc(0.0)));
    let shapes = g.shapes();
    assert_eq!(shapes[0].vertices.len(), 6);
    let vals = eval(g.tape.entries());
    // lengthened by half the weight at each end: (10 + 4) * 4
    let area = batch_area(&vals, &shapes[0]);
    assert!((area - 14.0 * 4.0).abs() < 1e-2);
}

#[test]
fn butt_point_is_invisible() {
    let mut g = GraphicsP2D::default();
    g.stroke_cap(StrokeCap::Butt);
    g.point((sc(3.0), sc(4.0)));
    let shapes = g.shapes();
    assert_eq!(shapes.len(), 1);
    assert_eq!(shapes[0].vertices.len(), 0);
}

#[test]
fn round_point_is_a_disc() {
    let mut g = GraphicsP2D::default();
    g.stroke_weight(sc(6.0));
    g.stroke_cap(StrokeCap::Round);
    g.point((sc(0.0), sc(0.0)));
    let shapes = g.shapes();
    assert_eq!(shapes[0].vertices.len(), 3 * tess::CIRCLE_SEGMENTS);
    let vals = eval(g.tape.entries());
    let area = batch_area(&vals, &shapes[0]);
    let disc = std::f32::consts::PI * 3.0 * 3.0;
    assert!((area - disc).abs() / disc < 0.02);
}

#[test]
fn square_point_is_a_square_of_side_weight() {
    let mut g = GraphicsP2D::default();
    g.stroke_weight(sc(6.0));
    g.stroke_cap(StrokeCap::Square);
    g.point((sc(5.0), sc(5.0)));
    let shapes = g.shapes();
    assert_eq!(shapes[0].vertices.len(), 6);
    let vals = eval(g.tape.entries());
    let area = batch_area(&vals, &shapes[0]);
    assert!((area - 36.0).abs() < 1e-3);
}

#[test]
fn ellipse_fill_has_one_triangle_per_segment() {
    let mut g = GraphicsP2D::default();
    g.stroke(None);
    g.ellipse(sc(0.0), sc(0.0), sc(5.0), sc(3.0));
    let shapes = g.shapes();
    assert_eq!(shapes.len(), 1);
    assert_eq!(shapes[0].vertices.len(), 3 * tess::CIRCLE_SEGMENTS);
}

#[test]
fn ellipse_fan_area_converges_to_pi_rx_ry() {
    // directly at a high resolution: the fan area approaches pi * rx * ry
    let mut t = Tape::new();
    let cx = t.push_lit(sc(0.0));
    let cy = t.push_lit(sc(0.0));
    let rx = t.push_lit(sc(5.0));
    let ry = t.push_lit(sc(3.0));
    let tris = tess::ellipse(
        &mut t,
        processing::mesh::PointId { x: cx, y: cy },
        rx,
        ry,
        5000,
    );
    assert_eq!(tris.len(), 5000);
    let vals = eval(t.entries());
    let mut area = 0.0f32;
    for tr in &tris {
        area += tri_area(
            (vals[tr.a.x.index], vals[tr.a.y.index]),
            (vals[tr.b.x.index], vals[tr.b.y.index]),
            (vals[tr.c.x.index], vals[tr.c.y.index]),
        );
    }
    let exact = std::f32::consts::PI * 5.0 * 3.0;
    assert!((area - exact).abs() / exact < 1e-3);
}

#[test]
fn arc_stroke_is_open() {
    // a quarter arc, stroke only: one chord per segment, none closing it
    let mut g = GraphicsP2D::default();
    g.fill(None);
    g.arc(sc(0.0), sc(0.0), sc(10.0), sc(0.0), sc(std::f32::consts::FRAC_PI_2));
    let shapes = g.shapes();
    assert_eq!(shapes.len(), 1);
    assert_eq!(
        shapes[0].vertices.len(),
        tess::CIRCLE_SEGMENTS * 3 * (2 * tess::CIRCLE_SEGMENTS + 2)
    );
}

#[test]
fn vertex_before_begin_shape_is_a_protocol_violation() {
    let mut g = GraphicsP2D::default();
    assert_eq!(g.vertex((sc(0.0), sc(0.0))), Err(ProtocolViolation::NotInShape));
}

#[test]
fn begin_shape_twice_is_a_protocol_violation() {
    let mut g = GraphicsP2D::default();
    assert_eq!(g.begin_shape(GeometryKind::Polygon), Ok(()));
    assert_eq!(g.begin_shape(GeometryKind::Polygon), Err(ProtocolViolation::AlreadyInShape));
}

#[test]
fn end_shape_without_begin_is_a_protocol_violation() {
    let mut g = GraphicsP2D::default();
    assert_eq!(g.end_shape(), Err(ProtocolViolation::NotInShape));
}

#[test]
fn background_then_shapes_is_exactly_two_triangles() {
    let mut g = GraphicsP2D::default();
    g.rect(sc(0.0), sc(0.0), sc(5.0), sc(5.0));
    g.background(Color::rgb(9, 9, 9), 800, 600);
    let shapes = g.shapes();
    assert_eq!(shapes.len(), 1);
    assert_eq!(shapes[0].vertices.len(), 6);
    assert!(shapes[0].vertices.iter().all(|v| v.color == Color::rgb(9, 9, 9)));
    let vals = eval(g.tape.entries());
    let area = batch_area(&vals, &shapes[0]);
    assert!((area - 800.0 * 600.0).abs() < 1.0);
}

#[test]
fn polygon_records_carry_the_style_at_vertex_time() {
    let mut g = GraphicsP2D::default();
    g.fill(Some(Color::rgb(0, 255, 0)));
    g.stroke(None);
    assert_eq!(g.begin_shape(GeometryKind::TriangleFan), Ok(()));
    assert_eq!(g.vertex((sc(0.0), sc(0.0))), Ok(()));
    g.fill(Some(Color::rgb(255, 0, 0)));
    assert_eq!(g.vertex((sc(1.0), sc(0.0))), Ok(()));
    assert_eq!(g.vertex((sc(0.0), sc(1.0))), Ok(()));
    assert_eq!(g.end_shape(), Ok(()));
    let shapes = g.shapes();
    // a fill pass under the polygon's kind, and an empty stroke pass
    assert_eq!(shapes.len(), 2);
    assert!(matches!(shapes[0].kind, GeometryKind::TriangleFan));
    assert_eq!(shapes[0].vertices.len(), 3);
    assert_eq!(shapes[0].vertices[0].color, Color::rgb(0, 255, 0));
    assert_eq!(shapes[0].vertices[1].color, Color::rgb(255, 0, 0));
    assert_eq!(shapes[1].vertices.len(), 0);
}

#[test]
fn polygon_boundary_is_stroked_per_edge() {
    let mut g = GraphicsP2D::default();
    g.fill(None);
    g.stroke(Some(Color::rgb(1, 2, 3)));
    assert_eq!(g.begin_shape(GeometryKind::Polygon), Ok(()));
    assert_eq!(g.vertex((sc(0.0), sc(0.0))), Ok(()));
    assert_eq!(g.vertex((sc(10.0), sc(0.0))), Ok(()));
    assert_eq!(g.vertex((sc(0.0), sc(10.0))), Ok(()));
    assert_eq!(g.end_shape(), Ok(()));
    let shapes = g.shapes();
    assert_eq!(shapes.len(), 2);
    assert_eq!(shapes[0].vertices.len(), 3);
    // three wrapped edges, each a round-capped segment
    assert_eq!(shapes[1].vertices.len(), 3 * 3 * (2 * tess::CIRCLE_SEGMENTS + 2));
    assert!(shapes[1].vertices.iter().all(|v| v.color == Color::rgb(1, 2, 3)));
}

#[test]
fn sketch_triangle_fill_and_stroke_batches() {
    // stroke red of weight ten, fill green, one triangle: a green batch of
    // three vertices, then a red batch of three round-capped edge strokes
    let mut p = Processing::new((), WindowSettings::default());
    p.fill(Color::rgb(0, 255, 0));
    p.stroke(Color::rgb(255, 0, 0));
    p.stroke_weight(sc(10.0));
    p.triangle(sc(0.0), sc(0.0), sc(100.0), sc(0.0), sc(0.0), sc(100.0));
    let shapes = p.g.shapes();
    assert_eq!(shapes.len(), 2);
    assert_eq!(shapes[0].vertices.len(), 3);
    assert!(shapes[0].vertices.iter().all(|v| v.color == Color::rgb(0, 255, 0)));
    assert_eq!(shapes[1].vertices.len(), 3 * 3 * (2 * tess::CIRCLE_SEGMENTS + 2));
    assert!(shapes[1].vertices.iter().all(|v| v.color == Color::rgb(255, 0, 0)));
    // each edge block ends with its six-vertex rectangle; the first edge
    // runs along the x axis, so its rectangle's area is length * weight
    let vals = eval(p.g.tape.entries());
    let block = 3 * (2 * tess::CIRCLE_SEGMENTS + 2);
    let quad = &shapes[1].vertices[block - 6..block];
    let ps: Vec<(f32, f32)> = quad.iter().map(|v| (vals[v.x.index], vals[v.y.index])).collect();
    let area = tri_area(ps[0], ps[1], ps[2]) + tri_area(ps[3], ps[4], ps[5]);
    assert!((area - 100.0 * 10.0).abs() < 1e-1);
}

#[test]
fn style_setters_do_not_touch_the_buffer() {
    let mut p = Processing::new((), WindowSettings::default());
    p.background(Color::rgb(0, 0, 0));
    p.no_fill();
    p.no_stroke();
    p.stroke_cap(StrokeCap::Round);
    p.stroke_join(StrokeJoin::Bevel);
    p.stroke_weight(sc(2.0));
    assert_eq!(p.g.shapes().len(), 1);
    // neither pass is active: drawing emits nothing
    p.rect(sc(0.0), sc(0.0), sc(1.0), sc(1.0));
    assert_eq!(p.g.shapes().len(), 1);
}

#[test]
fn close_request_exits() {
    let mut p = Processing::new((), WindowSettings::default());
    let cb = Callbacks {
        has_draw: true,
        has_mouse_clicked: true,
        has_mouse_moved: true,
        has_key_pressed: true,
    };
    assert_eq!(p.event_handler(Event::CloseRequested, cb), Action::Exit);
}

#[test]
fn resize_updates_recorded_size_only() {
    let mut p = Processing::new((), WindowSettings::default());
    let cb = Callbacks {
        has_draw: false,
        has_mouse_clicked: false,
        has_mouse_moved: false,
        has_key_pressed: false,
    };
    assert_eq!(p.event_handler(Event::Resized(1024, 768), cb), Action::Nothing);
    assert_eq!(p.width(), 1024);
    assert_eq!(p.height(), 768);
}

#[test]
fn key_callback_fires_on_release_only() {
    let mut p = Processing::new((), WindowSettings::default());
    let cb = Callbacks {
        has_draw: false,
        has_mouse_clicked: false,
        has_mouse_moved: false,
        has_key_pressed: true,
    };
    let press = Event::Keyboard { released: false, coded: true };
    let release = Event::Keyboard { released: true, coded: true };
    assert_eq!(p.event_handler(press, cb), Action::Nothing);
    assert_eq!(p.event_handler(release, cb), Action::InvokeKeyPressed);
    let none = Callbacks { has_key_pressed: false, ..cb };
    assert_eq!(p.event_handler(release, none), Action::Nothing);
}

#[test]
fn mouse_click_fires_on_release_only() {
    let mut p = Processing::new((), WindowSettings::default());
    let cb = Callbacks {
        has_draw: false,
        has_mouse_clicked: true,
        has_mouse_moved: false,
        has_key_pressed: false,
    };
    assert_eq!(p.event_handler(Event::MouseButton { released: false }, cb), Action::Nothing);
    assert_eq!(
        p.event_handler(Event::MouseButton { released: true }, cb),
        Action::InvokeMouseClicked
    );
}

#[test]
fn redraw_ticks_follow_the_loop_flag_and_explicit_requests() {
    let mut p = Processing::new((), WindowSettings::default());
    let cb = Callbacks {
        has_draw: true,
        has_mouse_clicked: false,
        has_mouse_moved: false,
        has_key_pressed: false,
    };
    assert_eq!(p.event_handler(Event::RedrawRequested, cb), Action::Draw { invoke_draw: true });
    p.no_loop();
    assert_eq!(p.event_handler(Event::RedrawRequested, cb), Action::Nothing);
    p.redraw();
    assert_eq!(p.event_handler(Event::RedrawRequested, cb), Action::Draw { invoke_draw: true });
    assert_eq!(p.event_handler(Event::RedrawRequested, cb), Action::Nothing);
    p.start_loop();
    let quiet = Callbacks { has_draw: false, ..cb };
    assert_eq!(p.event_handler(Event::RedrawRequested, quiet), Action::Draw { invoke_draw: false });
}

#[test]
fn cursor_moves_dispatch_when_registered() {
    let mut p = Processing::new((), WindowSettings::default());
    let cb = Callbacks {
        has_draw: false,
        has_mouse_clicked: false,
        has_mouse_moved: true,
        has_key_pressed: false,
    };
    assert_eq!(p.event_handler(Event::CursorMoved, cb), Action::InvokeMouseMoved);
    assert_eq!(p.event_handler(Event::MouseWheel, cb), Action::Nothing);
    assert_eq!(p.event_handler(Event::Other, cb), Action::Nothing);
}

#[test]
fn title_is_recorded() {
    let mut p = Processing::new((), WindowSettings::default());
    p.title("sketch");
    assert_eq!(p.window_settings.title, "sketch");
}

#[test]
fn vertex_shape_capability_drives_the_same_protocol() {
    let mut g = GraphicsP2D::default();
    assert!(<GraphicsP2D as VertexShape>::begin_shape(&mut g, GeometryKind::Lines).is_ok());
    assert!(<GraphicsP2D as VertexShape>::vertex(&mut g, (sc(0.0), sc(1.0))).is_ok());
    assert!(<GraphicsP2D as VertexShape>::end_shape(&mut g).is_ok());
    assert!(<GraphicsP2D as VertexShape>::end_shape(&mut g).is_err());
}
