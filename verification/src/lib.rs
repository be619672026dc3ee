//! A minimal terminal text editor core: a line buffer with character-level
//! edits, a caret clamped to the viewport, and a renderer that turns editor
//! state into the commands a terminal has to carry out.

pub mod buffer;
pub mod caret;
pub mod editor;
pub mod terminal;
pub mod view;
