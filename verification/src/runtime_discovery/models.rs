//! Records that the Zellij CLI reports about sessions, tabs and panes.

use vstd::prelude::*;

use crate::runtime_discovery::json::Json;

verus! {

/// One line of `zellij list-sessions --no-formatting`.
#[derive(Debug, Clone, PartialEq, Eq)]
pub struct SessionInfo {
    pub name: String,
    pub created_age: Option<String>,
    pub state: SessionState,
}

/// The state a session line reports after its `[Created ...]` marker.
#[derive(Debug, Clone, Copy, PartialEq, Eq, Structural)]
pub enum SessionState {
    Active,
    Current,
    Exited,
    Unknown,
}

impl Default for SessionState {
    fn default() -> (r: Self)
        ensures
            r == SessionState::Unknown,
    {
        SessionState::Unknown
    }
}

/// One tab record of `zellij action list-tabs --json --all`.
#[derive(Debug, Clone, PartialEq, Eq)]
pub struct TabInfo {
    pub position: u64,
    pub name: String,
    pub active: bool,
    pub panes_to_hide: Vec<u64>,
    pub is_fullscreen_active: bool,
    pub is_sync_panes_active: bool,
    pub are_floating_panes_visible: bool,
    pub other_focused_clients: Vec<u64>,
    pub active_swap_layout_name: Option<String>,
    pub is_swap_layout_dirty: bool,
    pub viewport_rows: Option<u64>,
    pub viewport_columns: Option<u64>,
    pub display_area_rows: Option<u64>,
    pub display_area_columns: Option<u64>,
    pub selectable_tiled_panes_count: Option<u64>,
    pub selectable_floating_panes_count: Option<u64>,
    pub tab_id: u64,
    pub has_bell_notification: bool,
    pub is_flashing_bell: bool,
}

/// One pane record of `zellij action list-panes --json --all`.
#[derive(Debug, Clone, PartialEq)]
pub struct PaneInfo {
    pub id: u64,
    pub is_plugin: bool,
    pub is_focused: bool,
    pub is_fullscreen: bool,
    pub is_floating: bool,
    pub is_suppressed: bool,
    pub title: Option<String>,
    pub exited: bool,
    pub exit_status: Option<i32>,
    pub is_held: bool,
    pub pane_x: Option<i64>,
    pub pane_content_x: Option<i64>,
    pub pane_y: Option<i64>,
    pub pane_content_y: Option<i64>,
    pub pane_rows: Option<i64>,
    pub pane_content_rows: Option<i64>,
    pub pane_columns: Option<i64>,
    pub pane_content_columns: Option<i64>,
    pub cursor_coordinates_in_pane: Option<Json>,
    pub terminal_command: Option<String>,
    pub plugin_url: Option<String>,
    pub is_selectable: bool,
    pub index_in_pane_group: Option<u64>,
    pub default_fg: Option<Json>,
    pub default_bg: Option<Json>,
    pub tab_id: u64,
    pub tab_position: u64,
    pub tab_name: String,
    pub pane_command: Option<String>,
    pub pane_cwd: Option<String>,
}

} // verus!
