//! The interactive side: sections, focus, the content pane and the session.

pub mod app;
pub mod components;
pub mod menu;
pub mod style;
pub mod ui;
