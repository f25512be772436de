//! Navigation, discovery and preview logic for browsing Zellij sessions, tabs and panes.

pub mod text;
pub mod runtime_discovery;
pub mod navigation_model;
pub mod tui;
pub mod status;
