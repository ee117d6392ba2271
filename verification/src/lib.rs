//! Core of a small screen-oriented text editor.
//!
//! The crate models a single in-memory document (an ordered sequence of text
//! lines together with its save target and a dirty flag) and an edit session
//! (cursor, scroll offset, viewport, and the dispatch of decoded key events
//! into document mutations).  Everything here is pure in-memory state; the
//! terminal layer and the actual file reads and writes live with the caller,
//! which hands content and key bytes in and carries save requests out.

pub mod buffer;
pub mod editor;
pub mod keys;
pub mod prompt;
pub mod views;
