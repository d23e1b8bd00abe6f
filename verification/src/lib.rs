//! A modal terminal text editor core: a grapheme-aware text buffer, a cursor
//! and viewport engine, and the mode controllers that drive them.
//!
//! The library holds no terminal, clipboard or file handle. Every operation
//! takes plain values and hands plain values back, so that a front end can
//! perform the drawing and the input and output it is told to.

pub mod text;
pub mod line;
pub mod coordinate;
pub mod buffer;
pub mod input;
pub mod editorcommands;
pub mod view;
pub mod search;
pub mod highlight;
pub mod vim_mode;
pub mod prompt;
pub mod editor;
