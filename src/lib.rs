//! Frame logic of a windowed triangle renderer: the window size and cursor
//! that drive the clear colour, the fixed vertex list and its memory layout,
//! and the event decisions of the control loop.

pub mod color;
pub mod laws;
pub mod layout;
pub mod state;
