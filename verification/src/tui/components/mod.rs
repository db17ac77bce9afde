//! The two panes of the screen, as state and as the lines they show.

pub mod content_pane;
pub mod content_view;
pub mod sidebar;

pub use content_pane::ContentPane;
pub use sidebar::Sidebar;
