//! Interaction core of a terminal résumé editor.
//!
//! The crate holds the state of an editing session and nothing outside of
//! it: no file is read or written here and nothing is drawn.
//!
//! - [`data`] is the record store: the résumé and its three lists of
//!   entries.
//! - [`text`] holds the operations on text that editing needs, among them
//!   the reading of bullet points from a bullet field.
//! - [`tui`] is the session: sections and focus, the content pane with its
//!   edit buffer, the key handling, and the lines of each frame.
//! - [`export`] holds the markup of the export helpers.
//!
//! Every function has a contract over a mathematical view of its data, and
//! the laws that relate several functions are stated as proof functions
//! next to them.

pub mod data;
pub mod export;
pub mod text;
pub mod tui;
