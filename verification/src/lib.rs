//! Core of a line-oriented text editor: an editable text container with
//! line-indexed access, a buffer with validated cursor and viewport movement,
//! an undo history log, and a projector that maps the visible part of a
//! document onto a bordered character grid.

pub mod buffer;
pub mod display;
pub mod error;
pub mod history;
pub mod lines;
pub mod text;
