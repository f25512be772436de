use crossterm::event::{KeyCode, KeyEvent, KeyEventKind, KeyModifiers};

use zellijess::navigation_model::SelectionAction;
use zellijess::runtime_discovery::{PaneSnapshot, RuntimeDiscoveryError};
use zellijess::tui::demo_data::load_navigation_model;
use zellijess::tui::preview::{NoLoader, PaneSnapshotRequest, SnapshotLoader, SnapshotPreviewState};
use zellijess::tui::state::{AppState, EventResult, InputMode};

fn key(code: KeyCode) -> KeyEvent {
    KeyEvent::new(code, KeyModifiers::NONE)
}

fn build_fixture_state() -> AppState<NoLoader> {
    let model = load_navigation_model().expect("fixture model should load");
    AppState::new(model)
}

struct ReadySnapshotLoader;

impl SnapshotLoader for ReadySnapshotLoader {
    fn load_snapshot(
        &self,
        request: &PaneSnapshotRequest,
    ) -> Result<PaneSnapshot, RuntimeDiscoveryError> {
        Ok(PaneSnapshot::Ready(format!(
            "snapshot for {}:{}",
            request.session_name, request.pane_id
        )))
    }
}

#[test]
fn navigation_clamps_to_list_bounds() {
    let mut state = build_fixture_state();
    let total_rows = state.visible_items().len();

    for _ in 0..(total_rows + 10) {
        assert_eq!(
            state.handle_key_event(key(KeyCode::Down)),
            EventResult::Continue
        );
    }
    assert_eq!(
        state.selected_index(state.visible_items().len()),
        Some(total_rows - 1)
    );

    for _ in 0..(total_rows + 10) {
        assert_eq!(
            state.handle_key_event(key(KeyCode::Up)),
            EventResult::Continue
        );
    }
    assert_eq!(state.selected_index(state.visible_items().len()), Some(0));
}

#[test]
fn escape_in_filter_mode_requires_clear_then_exit_then_quit() {
    let mut state = build_fixture_state();

    assert_eq!(state.mode(), InputMode::Navigate);
    assert_eq!(
        state.handle_key_event(key(KeyCode::Char('/'))),
        EventResult::Continue
    );
    assert_eq!(state.mode(), InputMode::Filter);

    assert_eq!(
        state.handle_key_event(key(KeyCode::Char('l'))),
        EventResult::Continue
    );
    assert_eq!(
        state.handle_key_event(key(KeyCode::Char('o'))),
        EventResult::Continue
    );
    assert_eq!(state.filter_query(), "lo");

    assert_eq!(
        state.handle_key_event(key(KeyCode::Esc)),
        EventResult::Continue
    );
    assert_eq!(state.mode(), InputMode::Filter);
    assert_eq!(state.filter_query(), "");

    assert_eq!(
        state.handle_key_event(key(KeyCode::Esc)),
        EventResult::Continue
    );
    assert_eq!(state.mode(), InputMode::Navigate);

    assert_eq!(state.handle_key_event(key(KeyCode::Esc)), EventResult::Quit);
}

#[test]
fn q_is_printable_in_filter_mode_and_does_not_quit() {
    let mut state = build_fixture_state();

    assert_eq!(state.mode(), InputMode::Navigate);
    assert_eq!(
        state.handle_key_event(key(KeyCode::Char('/'))),
        EventResult::Continue
    );
    assert_eq!(state.mode(), InputMode::Filter);

    assert_eq!(
        state.handle_key_event(key(KeyCode::Char('q'))),
        EventResult::Continue
    );
    assert_eq!(state.filter_query(), "q");
    assert_eq!(state.mode(), InputMode::Filter);
}

#[test]
fn enter_stages_selection_action_without_execution() {
    let mut state = build_fixture_state();

    assert_eq!(
        state.handle_key_event(key(KeyCode::Enter)),
        EventResult::Continue
    );
    assert_eq!(
        state.pending_action(),
        Some(&SelectionAction::SwitchSession {
            session_name: "zellijess".to_owned(),
        })
    );

    assert_eq!(
        state.handle_key_event(key(KeyCode::Down)),
        EventResult::Continue
    );
    assert_eq!(
        state.handle_key_event(key(KeyCode::Down)),
        EventResult::Continue
    );
    assert_eq!(
        state.handle_key_event(key(KeyCode::Enter)),
        EventResult::Continue
    );
    assert_eq!(
        state.pending_action(),
        Some(&SelectionAction::FocusPane {
            session_name: "zellijess".to_owned(),
            tab_id: 1,
            tab_position: 0,
            pane_id: 3,
        })
    );

    assert_eq!(
        state.handle_key_event(key(KeyCode::Char('/'))),
        EventResult::Continue
    );
    assert_eq!(
        state.handle_key_event(key(KeyCode::Char('z'))),
        EventResult::Continue
    );
    assert_eq!(
        state.handle_key_event(key(KeyCode::Char('z'))),
        EventResult::Continue
    );
    assert_eq!(
        state.handle_key_event(key(KeyCode::Char('z'))),
        EventResult::Continue
    );
    assert!(state.visible_items().is_empty());

    assert_eq!(
        state.handle_key_event(key(KeyCode::Enter)),
        EventResult::Continue
    );
    assert_eq!(state.pending_action(), Some(&SelectionAction::NoAction));
}

#[test]
fn pane_selection_uses_configured_snapshot_loader() {
    let model = load_navigation_model().expect("fixture model should load");
    let mut state = AppState::new_with_snapshot_loader(model, Box::new(ReadySnapshotLoader));

    assert_eq!(
        state.handle_key_event(key(KeyCode::Down)),
        EventResult::Continue
    );
    assert_eq!(
        state.handle_key_event(key(KeyCode::Down)),
        EventResult::Continue
    );

    assert!(matches!(
        state.current_snapshot_preview_state(),
        SnapshotPreviewState::Ready { body, .. } if body == "snapshot for zellijess:3"
    ));
}

#[test]
fn ctrl_c_quits_in_any_mode_and_releases_are_ignored() {
    let mut state = build_fixture_state();
    assert_eq!(
        state.handle_key_event(key(KeyCode::Char('/'))),
        EventResult::Continue
    );
    let release = KeyEvent::new_with_kind(KeyCode::Char('x'), KeyModifiers::NONE, KeyEventKind::Release);
    assert_eq!(state.handle_key_event(release), EventResult::Continue);
    assert_eq!(state.filter_query(), "");
    let ctrl_c = KeyEvent::new(KeyCode::Char('c'), KeyModifiers::CONTROL);
    assert_eq!(state.handle_key_event(ctrl_c), EventResult::Quit);
}

#[test]
fn backspace_edits_the_filter_and_resets_the_selection() {
    let mut state = build_fixture_state();
    state.handle_key_event(key(KeyCode::Down));
    state.handle_key_event(key(KeyCode::Char('/')));
    state.handle_key_event(key(KeyCode::Char('w')));
    state.handle_key_event(key(KeyCode::Char('o')));
    assert_eq!(state.filter_query(), "wo");
    assert_eq!(
        state.handle_key_event(key(KeyCode::Backspace)),
        EventResult::Continue
    );
    assert_eq!(state.filter_query(), "w");
    assert_eq!(state.selected_index(state.visible_items().len()), Some(0));
    let alt_x = KeyEvent::new(KeyCode::Char('x'), KeyModifiers::ALT);
    state.handle_key_event(alt_x);
    assert_eq!(state.filter_query(), "w");
}

#[test]
fn selection_preview_target_follows_the_selected_row() {
    let mut state = build_fixture_state();
    state.handle_key_event(key(KeyCode::Char('j')));
    let target = state.current_preview_target();
    assert!(matches!(
        target,
        zellijess::navigation_model::PreviewTarget::TabSummary { tab_id: 1, .. }
    ));
    state.handle_key_event(key(KeyCode::Char('k')));
    assert!(matches!(
        state.current_preview_target(),
        zellijess::navigation_model::PreviewTarget::SessionSummary { .. }
    ));
}
