use triangle_demo::color::{cursor_color, default_color, Color, Fraction};
use triangle_demo::layout::{vertex_layout, VertexAttribute, VERTEX_COUNT};
use triangle_demo::state::{Action, FramePlan, Key, Point, Size, State, WindowInput};

fn value(f: Fraction) -> f64 {
    f.num as f64 / f.den as f64
}

fn rgba(c: Color) -> (f64, f64, f64, f64) {
    (value(c.r), value(c.g), value(c.b), value(c.a))
}

fn window(width: u32, height: u32) -> State {
    State::new(Size { width, height })
}

#[test]
fn cursor_at_centre_gives_half_red_half_green() {
    let mut s = window(800, 600);
    let a = s.step(&WindowInput::CursorMoved(Point { x: 400, y: 300 }));
    assert_eq!(a, Action::Continue);
    let f = s.render();
    assert_eq!(f.clear.r, Fraction { num: 400, den: 800 });
    assert_eq!(f.clear.g, Fraction { num: 300, den: 600 });
    assert_eq!(rgba(f.clear), (0.5, 0.5, 0.3, 1.0));
}

#[test]
fn cursor_channels_follow_position() {
    let mut s = window(200, 100);
    s.input(&WindowInput::CursorMoved(Point { x: 50, y: 25 }));
    assert_eq!(rgba(s.clear_color()), (0.25, 0.25, 0.3, 1.0));
    s.input(&WindowInput::CursorMoved(Point { x: 0, y: 99 }));
    assert_eq!(s.clear_color().r, Fraction { num: 0, den: 200 });
    assert_eq!(s.clear_color().g, Fraction { num: 99, den: 100 });
}

#[test]
fn default_color_before_pointer_moves() {
    let mut s = window(800, 600);
    assert_eq!(rgba(s.render().clear), (0.1, 0.2, 0.3, 1.0));
    s.step(&WindowInput::Resized(Size { width: 10, height: 10 }));
    s.step(&WindowInput::KeyPressed(Key::Other));
    s.step(&WindowInput::RedrawRequested);
    assert_eq!(s.cursor_position(), None);
    assert_eq!(s.render().clear, default_color());
}

#[test]
fn resize_stores_size_and_rescales_color() {
    let mut s = window(800, 600);
    s.step(&WindowInput::CursorMoved(Point { x: 400, y: 300 }));
    let a = s.step(&WindowInput::Resized(Size { width: 1600, height: 1200 }));
    assert_eq!(a, Action::Reconfigure(Size { width: 1600, height: 1200 }));
    assert_eq!(s.size(), Size { width: 1600, height: 1200 });
    assert_eq!(rgba(s.render().clear), (0.25, 0.25, 0.3, 1.0));
}

#[test]
fn resize_method_keeps_cursor() {
    let mut s = window(4, 4);
    s.input(&WindowInput::CursorMoved(Point { x: 1, y: 2 }));
    s.resize(Size { width: 8, height: 2 });
    assert_eq!(s.size(), Size { width: 8, height: 2 });
    assert_eq!(s.cursor_position(), Some(Point { x: 1, y: 2 }));
    assert_eq!(s.clear_color(), cursor_color(1, 2, 8, 2));
}

#[test]
fn resize_to_zero_keeps_zero_denominator() {
    let mut s = window(800, 600);
    s.step(&WindowInput::CursorMoved(Point { x: 3, y: 4 }));
    s.step(&WindowInput::Resized(Size { width: 0, height: 0 }));
    let c = s.render().clear;
    assert_eq!(c.r, Fraction { num: 3, den: 0 });
    assert_eq!(c.g, Fraction { num: 4, den: 0 });
}

#[test]
fn frame_draws_three_vertices_once() {
    let mut s = window(640, 480);
    assert_eq!(VERTEX_COUNT, 3);
    assert_eq!(s.num_vertices(), 3);
    let events = [
        WindowInput::CursorMoved(Point { x: 1, y: 1 }),
        WindowInput::Resized(Size { width: 3, height: 7 }),
        WindowInput::KeyReleased(Key::Escape),
        WindowInput::Other,
    ];
    for e in events.iter() {
        s.step(e);
    }
    match s.step(&WindowInput::RedrawRequested) {
        Action::Draw(f) => {
            assert_eq!(f.first_vertex, 0);
            assert_eq!(f.vertex_count, 3);
            assert_eq!(f.first_instance, 0);
            assert_eq!(f.instance_count, 1);
            assert_eq!(f, s.render());
        }
        other => panic!("expected a frame, got {:?}", other),
    }
    assert_eq!(s.num_vertices(), 3);
}

#[test]
fn redraw_yields_current_frame() {
    let mut s = window(10, 20);
    s.step(&WindowInput::CursorMoved(Point { x: 5, y: 5 }));
    let expected = FramePlan {
        clear: cursor_color(5, 5, 10, 20),
        first_vertex: 0,
        vertex_count: 3,
        first_instance: 0,
        instance_count: 1,
    };
    assert_eq!(s.step(&WindowInput::RedrawRequested), Action::Draw(expected));
}

#[test]
fn escape_and_close_end_the_loop() {
    let mut s = window(800, 600);
    assert_eq!(s.step(&WindowInput::KeyPressed(Key::Escape)), Action::Exit);
    assert_eq!(s.step(&WindowInput::CloseRequested), Action::Exit);
}

#[test]
fn other_keys_do_not_end_the_loop() {
    let mut s = window(800, 600);
    assert_eq!(s.step(&WindowInput::KeyPressed(Key::Other)), Action::Continue);
    assert_eq!(s.step(&WindowInput::KeyReleased(Key::Escape)), Action::Continue);
    assert_eq!(s.step(&WindowInput::Other), Action::Continue);
}

#[test]
fn input_consumes_only_pointer_moves() {
    let mut s = window(800, 600);
    assert!(!s.input(&WindowInput::CloseRequested));
    assert!(!s.input(&WindowInput::Resized(Size { width: 1, height: 1 })));
    assert_eq!(s.size(), Size { width: 800, height: 600 });
    assert!(s.input(&WindowInput::CursorMoved(Point { x: -5, y: 7 })));
    assert_eq!(s.cursor_position(), Some(Point { x: -5, y: 7 }));
}

#[test]
fn update_changes_nothing() {
    let mut s = window(30, 40);
    s.input(&WindowInput::CursorMoved(Point { x: 6, y: 8 }));
    let before = s.render();
    s.update();
    assert_eq!(s.render(), before);
    assert_eq!(s.size(), Size { width: 30, height: 40 });
}

#[test]
fn vertex_layout_packs_position_then_color() {
    let l = vertex_layout();
    assert_eq!(l.stride, 24);
    assert_eq!(
        l.attributes,
        vec![
            VertexAttribute { offset: 0, shader_location: 0 },
            VertexAttribute { offset: 12, shader_location: 1 },
        ]
    );
}

#[test]
fn fraction_keeps_numerator_and_denominator() {
    let f = Fraction::new(-7, 9);
    assert_eq!(f.num, -7);
    assert_eq!(f.den, 9);
}
