//! What holds of every run of the control loop.

use vstd::prelude::*;
use crate::color::{spec_cursor_color, spec_default_color};
use crate::layout::VERTEX_COUNT;
use crate::state::{Action, Key, Point, Size, StateModel, WindowInput};

verus! {

/// After the pointer moves to a point inside the window, the frame clears to
/// red `x / width`, green `y / height`, blue `3 / 10` and alpha `1`.
pub proof fn lemma_cursor_color(m: StateModel, p: Point)
    requires
        0 <= p.x < m.size.width,
        0 <= p.y < m.size.height,
    ensures
        ({
            let (t, a) = m.step(WindowInput::CursorMoved(p));
            let c = t.frame().clear;
            &&& a == Action::Continue
            &&& c.r.denotes(p.x as int, m.size.width as int)
            &&& c.g.denotes(p.y as int, m.size.height as int)
            &&& c.b.denotes(3, 10)
            &&& c.a.denotes(1, 1)
        }),
{
}

/// Handling events none of which moves the pointer leaves the cursor as it was.
proof fn lemma_run_keeps_cursor(m: StateModel, events: Seq<WindowInput>)
    requires
        forall|i: int| 0 <= i < events.len() ==> !(#[trigger] events[i] is CursorMoved),
    ensures
        m.run(events).cursor == m.cursor,
    decreases events.len(),
{
    if events.len() > 0 {
        let rest = events.drop_first();
        assert forall|i: int| 0 <= i < rest.len() implies !(#[trigger] rest[i] is CursorMoved) by {
            assert(rest[i] == events[i + 1]);
        }
        lemma_run_keeps_cursor(m.step(events[0]).0, rest);
    }
}

/// Until the pointer first moves, every frame clears to `(0.1, 0.2, 0.3, 1.0)`.
pub proof fn lemma_default_before_pointer(size: Size, events: Seq<WindowInput>)
    requires
        forall|i: int| 0 <= i < events.len() ==> !(#[trigger] events[i] is CursorMoved),
    ensures
        StateModel::initial(size).run(events).frame().clear == spec_default_color(),
{
    lemma_run_keeps_cursor(StateModel::initial(size), events);
}

/// A resize to `size` stores exactly that size, asks for the surface to be
/// rebuilt at it, and the next frame's colour is computed over the new size.
pub proof fn lemma_resize_then_render(m: StateModel, size: Size)
    ensures
        ({
            let (t, a) = m.step(WindowInput::Resized(size));
            &&& t.size == size
            &&& a == Action::Reconfigure(size)
            &&& t.step(WindowInput::RedrawRequested).1 == Action::Draw(t.frame())
            &&& (m.cursor matches Some(p) ==> t.frame().clear == spec_cursor_color(
                p.x,
                p.y,
                size.width,
                size.height,
            ))
        }),
{
}

/// Handling any events leaves the number of vertices drawn as it was.
proof fn lemma_run_keeps_vertices(m: StateModel, events: Seq<WindowInput>)
    ensures
        m.run(events).num_vertices == m.num_vertices,
    decreases events.len(),
{
    if events.len() > 0 {
        lemma_run_keeps_vertices(m.step(events[0]).0, events.drop_first());
    }
}

/// Whatever events come, every frame draws the same three vertices, once.
pub proof fn lemma_vertices_fixed(size: Size, events: Seq<WindowInput>)
    ensures
        ({
            let f = StateModel::initial(size).run(events).frame();
            &&& StateModel::initial(size).run(events).wf()
            &&& f.first_vertex == 0
            &&& f.vertex_count == VERTEX_COUNT
            &&& VERTEX_COUNT == 3
            &&& f.first_instance == 0
            &&& f.instance_count == 1
        }),
{
    lemma_run_keeps_vertices(StateModel::initial(size), events);
}

/// A close request and a press of Escape each end the loop.
pub proof fn lemma_exit_on_close_or_escape(m: StateModel)
    ensures
        m.step(WindowInput::CloseRequested).1 == Action::Exit,
        m.step(WindowInput::KeyPressed(Key::Escape)).1 == Action::Exit,
{
}

} // verus!
