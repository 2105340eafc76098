//! The render state that frames are drawn from, and the decisions of the
//! control loop.
//!
//! The loop itself, the window and the graphics device live with the caller:
//! it turns each window event into a [`WindowInput`], hands it to
//! [`State::step`], and carries out the [`Action`] that comes back.

use vstd::prelude::*;
use crate::color::{Color, cursor_color, default_color, spec_cursor_color, spec_default_color};
use crate::layout::VERTEX_COUNT;

verus! {

/// A size in physical pixels.
#[derive(Clone, Copy, Debug, PartialEq, Eq, Structural)]
pub struct Size {
    pub width: u32,
    pub height: u32,
}

/// A pointer position in physical pixels from the window's top-left corner.
#[derive(Clone, Copy, Debug, PartialEq, Eq, Structural)]
pub struct Point {
    pub x: i64,
    pub y: i64,
}

/// The keys the loop tells apart.
#[derive(Clone, Copy, Debug, PartialEq, Eq, Structural)]
pub enum Key {
    Escape,
    Other,
}

/// A window-system event, as far as the renderer cares.
#[derive(Clone, Copy, Debug, PartialEq, Eq, Structural)]
pub enum WindowInput {
    CloseRequested,
    KeyPressed(Key),
    KeyReleased(Key),
    CursorMoved(Point),
    Resized(Size),
    RedrawRequested,
    Other,
}

/// What one frame does: clear the target to `clear`, then draw
/// `vertex_count` vertices from `first_vertex`, `instance_count` instances
/// from `first_instance`.
#[derive(Clone, Copy, Debug, PartialEq, Eq, Structural)]
pub struct FramePlan {
    pub clear: Color,
    pub first_vertex: u32,
    pub vertex_count: u32,
    pub first_instance: u32,
    pub instance_count: u32,
}

/// What the loop does after an event.
#[derive(Clone, Copy, Debug, PartialEq, Eq, Structural)]
pub enum Action {
    /// Stop the loop.
    Exit,
    /// Rebuild the presentation surface at this size before the next frame.
    Reconfigure(Size),
    /// Record and submit this frame, then present it.
    Draw(FramePlan),
    /// Nothing to do.
    Continue,
}

/// The render state as plain values.
pub struct StateModel {
    pub size: Size,
    pub cursor: Option<Point>,
    pub num_vertices: u32,
}

impl StateModel {
    /// The state right after start-up in a window of `size`.
    pub open spec fn initial(size: Size) -> StateModel {
        StateModel { size, cursor: None, num_vertices: VERTEX_COUNT }
    }

    /// Every frame draws the whole triangle.
    pub open spec fn wf(self) -> bool {
        self.num_vertices == VERTEX_COUNT
    }

    /// The colour a frame clears to: from the cursor over the window size once
    /// the cursor has moved, the default colour before.
    pub open spec fn clear_color(self) -> Color {
        match self.cursor {
            Some(p) => spec_cursor_color(p.x, p.y, self.size.width, self.size.height),
            None => spec_default_color(),
        }
    }

    /// The frame drawn in this state.
    pub open spec fn frame(self) -> FramePlan {
        FramePlan {
            clear: self.clear_color(),
            first_vertex: 0,
            vertex_count: self.num_vertices,
            first_instance: 0,
            instance_count: 1,
        }
    }

    /// The state after the window is resized to `size`.
    pub open spec fn resized(self, size: Size) -> StateModel {
        StateModel { size, ..self }
    }

    /// The state after `event` is offered as input: a pointer move records
    /// the position, anything else changes nothing.
    pub open spec fn after_input(self, event: WindowInput) -> StateModel {
        match event {
            WindowInput::CursorMoved(p) => StateModel { cursor: Some(p), ..self },
            _ => self,
        }
    }

    /// The next state and the action for `event`.
    pub open spec fn step(self, event: WindowInput) -> (StateModel, Action) {
        match event {
            WindowInput::CursorMoved(_) => (self.after_input(event), Action::Continue),
            WindowInput::CloseRequested => (self, Action::Exit),
            WindowInput::KeyPressed(Key::Escape) => (self, Action::Exit),
            WindowInput::Resized(size) => (self.resized(size), Action::Reconfigure(size)),
            WindowInput::RedrawRequested => (self, Action::Draw(self.frame())),
            _ => (self, Action::Continue),
        }
    }

    /// The state after the loop has handled each of `events` in turn.
    pub open spec fn run(self, events: Seq<WindowInput>) -> StateModel
        decreases events.len(),
    {
        if events.len() == 0 {
            self
        } else {
            self.step(events[0]).0.run(events.drop_first())
        }
    }
}

/// Whether the input handler takes `event` for itself: pointer moves only.
pub open spec fn spec_consumes(event: WindowInput) -> bool {
    event is CursorMoved
}

/// The render state: the window's size, the last known cursor position, and
/// the number of vertices each frame draws.
pub struct State {
    size: Size,
    cursor_position: Option<Point>,
    num_vertices: u32,
}

impl View for State {
    type V = StateModel;

    closed spec fn view(&self) -> StateModel {
        StateModel { size: self.size, cursor: self.cursor_position, num_vertices: self.num_vertices }
    }
}

impl State {
    /// The state for a window of `size`, before any pointer has moved.
    pub fn new(size: Size) -> (s: State)
        ensures
            s@ == StateModel::initial(size),
            s@.wf(),
    {
        State { size, cursor_position: None, num_vertices: VERTEX_COUNT }
    }

    /// The window size the surface is configured for.
    pub fn size(&self) -> (r: Size)
        ensures
            r == self@.size,
    {
        self.size
    }

    /// The last known cursor position, if the pointer has moved.
    pub fn cursor_position(&self) -> (r: Option<Point>)
        ensures
            r == self@.cursor,
    {
        self.cursor_position
    }

    /// The number of vertices each frame draws.
    pub fn num_vertices(&self) -> (r: u32)
        ensures
            r == self@.num_vertices,
    {
        self.num_vertices
    }

    /// Records the window's new size; the caller rebuilds the presentation
    /// surface at that size before the next frame.
    pub fn resize(&mut self, new_size: Size)
        ensures
            final(self)@ == old(self)@.resized(new_size),
    {
        self.size = new_size;
    }

    /// Offers `event` to the renderer: a pointer move updates the cursor
    /// position and is consumed; any other event is left alone.
    pub fn input(&mut self, event: &WindowInput) -> (consumed: bool)
        ensures
            final(self)@ == old(self)@.after_input(*event),
            consumed == spec_consumes(*event),
    {
        match event {
            WindowInput::CursorMoved(p) => {
                self.cursor_position = Some(*p);
                true
            },
            _ => false,
        }
    }

    /// Advances per-frame state; the renderer has none besides what input sets.
    pub fn update(&mut self)
        ensures
            final(self)@ == old(self)@,
    {
    }

    /// The colour the next frame clears to.
    pub fn clear_color(&self) -> (c: Color)
        ensures
            c == self@.clear_color(),
    {
        match self.cursor_position {
            Some(p) => cursor_color(p.x, p.y, self.size.width, self.size.height),
            None => default_color(),
        }
    }

    /// The next frame: its clear colour, and one instance of every vertex.
    pub fn render(&self) -> (f: FramePlan)
        ensures
            f == self@.frame(),
    {
        FramePlan {
            clear: self.clear_color(),
            first_vertex: 0,
            vertex_count: self.num_vertices,
            first_instance: 0,
            instance_count: 1,
        }
    }

    /// Handles one event of the control loop: input first, then a close
    /// request or Escape ends the loop, a resize records the new size and asks
    /// for the surface to be rebuilt, and a redraw updates and yields a frame.
    pub fn step(&mut self, event: &WindowInput) -> (a: Action)
        ensures
            (final(self)@, a) == old(self)@.step(*event),
    {
        if self.input(event) {
            return Action::Continue;
        }
        match event {
            WindowInput::CloseRequested => Action::Exit,
            WindowInput::KeyPressed(Key::Escape) => Action::Exit,
            WindowInput::Resized(size) => {
                self.resize(*size);
                Action::Reconfigure(*size)
            },
            WindowInput::RedrawRequested => {
                self.update();
                Action::Draw(self.render())
            },
            _ => Action::Continue,
        }
    }
}

} // verus!
