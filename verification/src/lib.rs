//! Core engine of a modal, line-oriented text editor: a text buffer addressed
//! by (column, row) positions, a linear undo/redo history of whole-buffer
//! snapshots, sticky-column cursor navigation, and the key-event state machine
//! that drives them. Terminal handling and file I/O live outside this crate.

pub mod buffer;
pub mod cursor;
pub mod editor;
pub mod history;
pub mod persist;
pub mod position;
pub mod rows;
pub mod view;
