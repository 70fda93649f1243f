//! The edit and cursor engine of a minimal terminal text editor.
//!
//! A [`Buffer`] is a document held as a non-empty sequence of lines, a
//! [`Cursor`] is a position that is clamped against a buffer's shape, and an
//! [`Editor`] ties one of each together and reacts to key presses. Nothing in
//! this crate touches a terminal: frames are returned as text and keys are
//! taken as values.

pub mod ansi;
pub mod buffer;
pub mod cursor;
pub mod document;
pub mod editor;
pub mod strings;

pub use ansi::ANSI;
pub use buffer::Buffer;
pub use cursor::Cursor;
pub use editor::{Editor, Key};
