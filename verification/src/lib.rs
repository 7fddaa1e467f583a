//! Editing core of a terminal text editor: line buffers with a cursor and
//! sticky-column vertical movement, and a viewport controller that keeps the
//! cursor inside the visible window.

pub mod ebuffer;
pub mod model;
pub mod text_buffer;
pub mod viewport;
