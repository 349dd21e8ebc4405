//! An interactive single-line input widget with live suggestions: each edit of
//! the line re-runs an external query command and offers its output lines as
//! selectable candidates.
//!
//! The crate holds the verified engine: the editable text buffer with its
//! cursor motions, the suggestion list with its selection cursor, the key
//! dispatcher that maps key events to state changes, the classification of a
//! finished command's output, and the renderer that produces the exact byte
//! stream written to the terminal.

pub mod buffer;
pub mod engine;
pub mod executor;
pub mod render;
pub mod session;
pub mod strings;
pub mod term;
