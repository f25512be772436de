//! The terminal browser's logic: the preview of the selected pane, the key handling of the
//! navigation and filter modes, the text the panels show, and the demo data.

pub mod preview;
pub mod state;
pub mod demo_data;
pub mod render;
