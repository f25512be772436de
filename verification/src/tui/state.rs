//! The browser's state: the tree, the input mode, the filter, the selection, the staged
//! action and the preview, and what each key does to them.

use crossterm::event::{KeyCode, KeyEvent, KeyEventKind, KeyModifiers};

use vstd::prelude::*;

use crate::navigation_model::{
    action_spec, normalize_spec, preview_spec, visible_rows, NavigationModel, NodeId,
    NodeIdView, PreviewTarget, PreviewTargetView, RowRef, SelectionAction, SelectionActionView,
    SessionNode, VisibleItem,
};
use crate::text::{chars_of, string_from_chars};
use crate::tui::preview::{
    NoLoader, SnapshotLoader, SnapshotPreviewController, SnapshotPreviewState,
};

verus! {

/// `crossterm::event::KeyEvent`, a key press as the terminal reports it.
#[verifier::external_type_specification]
#[verifier::external_body]
pub struct ExKeyEvent(KeyEvent);

/// Whether keys navigate the tree or edit the filter.
#[derive(Debug, Clone, Copy, PartialEq, Eq, Structural)]
pub enum InputMode {
    Navigate,
    Filter,
}

/// Whether the browser goes on after a key.
#[derive(Debug, Clone, Copy, PartialEq, Eq, Structural)]
pub enum EventResult {
    Continue,
    Quit,
}

/// The keys the browser tells apart.
#[derive(Debug, Clone, Copy, PartialEq, Eq, Structural)]
pub enum KeyInput {
    Char(char),
    Up,
    Down,
    Esc,
    Enter,
    Backspace,
    Other,
}

/// A key, with what the browser reads of its modifiers and kind.
#[derive(Debug, Clone, Copy, PartialEq, Eq, Structural)]
pub struct KeyPress {
    pub input: KeyInput,
    pub control: bool,
    pub alt: bool,
    pub release: bool,
}

/// The key a `KeyEvent` names (its `code` field), as far as the browser tells keys apart:
/// a character, Up, Down, Esc, Enter, Backspace, or another key. It is a function of the event
/// alone.
pub uninterp spec fn key_input_name(key: KeyEvent) -> KeyInput;

/// Whether the modifiers of a `KeyEvent` hold Control. A function of the event alone.
pub uninterp spec fn key_control_name(key: KeyEvent) -> bool;

/// Whether the modifiers of a `KeyEvent` hold Alt. A function of the event alone.
pub uninterp spec fn key_alt_name(key: KeyEvent) -> bool;

/// Whether the kind of a `KeyEvent` is a release. A function of the event alone.
pub uninterp spec fn key_release_name(key: KeyEvent) -> bool;

/// The key of a `KeyEvent` (its `code` field), as far as the browser tells keys apart.
#[verifier::external_body]
fn key_input_of(key: &KeyEvent) -> (r: KeyInput)
    ensures
        r == key_input_name(*key),
{
    match key.code {
        KeyCode::Char(c) => KeyInput::Char(c),
        KeyCode::Up => KeyInput::Up,
        KeyCode::Down => KeyInput::Down,
        KeyCode::Esc => KeyInput::Esc,
        KeyCode::Enter => KeyInput::Enter,
        KeyCode::Backspace => KeyInput::Backspace,
        _ => KeyInput::Other,
    }
}

/// `KeyModifiers::contains(CONTROL)` on the modifiers of a `KeyEvent`.
#[verifier::external_body]
fn key_has_control(key: &KeyEvent) -> (r: bool)
    ensures
        r == key_control_name(*key),
{
    key.modifiers.contains(KeyModifiers::CONTROL)
}

/// `KeyModifiers::contains(ALT)` on the modifiers of a `KeyEvent`.
#[verifier::external_body]
fn key_has_alt(key: &KeyEvent) -> (r: bool)
    ensures
        r == key_alt_name(*key),
{
    key.modifiers.contains(KeyModifiers::ALT)
}

/// Whether the kind of a `KeyEvent` is `KeyEventKind::Release`.
#[verifier::external_body]
fn key_is_release(key: &KeyEvent) -> (r: bool)
    ensures
        r == key_release_name(*key),
{
    key.kind == KeyEventKind::Release
}

/// What the browser reads of a terminal key event.
pub open spec fn key_press_of(key: KeyEvent) -> KeyPress {
    KeyPress {
        input: key_input_name(key),
        control: key_control_name(key),
        alt: key_alt_name(key),
        release: key_release_name(key),
    }
}

/// What the browser reads of a terminal key event.
pub fn key_press(key: &KeyEvent) -> (r: KeyPress)
    ensures
        r == key_press_of(*key),
{
    KeyPress {
        input: key_input_of(key),
        control: key_has_control(key),
        alt: key_has_alt(key),
        release: key_is_release(key),
    }
}

/// What a key asks of the browser.
#[derive(Debug, Clone, Copy, PartialEq, Eq, Structural)]
pub enum KeyCommand {
    Ignore,
    Quit,
    MoveNext,
    MovePrevious,
    EnterFilter,
    Escape,
    Stage,
    FilterPop,
    FilterPush(char),
}

/// What a key asks in a mode: a release does nothing; Ctrl-C quits; in navigation `q` quits,
/// `j`/`k` move like Down/Up and `/` starts filtering; Esc escapes and Enter stages; in the
/// filter Backspace deletes and a character without Ctrl or Alt is typed; anything else does
/// nothing.
pub open spec fn key_command(mode: InputMode, key: KeyPress) -> KeyCommand {
    let nav = mode == InputMode::Navigate;
    let filter = mode == InputMode::Filter;
    if key.release {
        KeyCommand::Ignore
    } else if key.control && key.input == KeyInput::Char('c') {
        KeyCommand::Quit
    } else if key.input == KeyInput::Char('q') && nav {
        KeyCommand::Quit
    } else if key.input == KeyInput::Down {
        KeyCommand::MoveNext
    } else if key.input == KeyInput::Up {
        KeyCommand::MovePrevious
    } else if key.input == KeyInput::Char('j') && nav {
        KeyCommand::MoveNext
    } else if key.input == KeyInput::Char('k') && nav {
        KeyCommand::MovePrevious
    } else if key.input == KeyInput::Char('/') && nav {
        KeyCommand::EnterFilter
    } else if key.input == KeyInput::Esc {
        KeyCommand::Escape
    } else if key.input == KeyInput::Enter {
        KeyCommand::Stage
    } else if key.input == KeyInput::Backspace && filter {
        KeyCommand::FilterPop
    } else {
        match key.input {
            KeyInput::Char(c) => if filter && !key.control && !key.alt {
                KeyCommand::FilterPush(c)
            } else {
                KeyCommand::Ignore
            },
            _ => KeyCommand::Ignore,
        }
    }
}

/// What a key asks of the browser in a mode.
pub fn classify_key(mode: InputMode, key: KeyPress) -> (r: KeyCommand)
    ensures
        r == key_command(mode, key),
{
    let nav = mode == InputMode::Navigate;
    let filter = mode == InputMode::Filter;
    if key.release {
        return KeyCommand::Ignore;
    }
    if key.control && key.input == KeyInput::Char('c') {
        return KeyCommand::Quit;
    }
    match key.input {
        KeyInput::Char('q') if nav => KeyCommand::Quit,
        KeyInput::Down => KeyCommand::MoveNext,
        KeyInput::Up => KeyCommand::MovePrevious,
        KeyInput::Char('j') if nav => KeyCommand::MoveNext,
        KeyInput::Char('k') if nav => KeyCommand::MovePrevious,
        KeyInput::Char('/') if nav => KeyCommand::EnterFilter,
        KeyInput::Esc => KeyCommand::Escape,
        KeyInput::Enter => KeyCommand::Stage,
        KeyInput::Backspace if filter => KeyCommand::FilterPop,
        KeyInput::Char(c) if filter && !key.control && !key.alt => KeyCommand::FilterPush(c),
        _ => KeyCommand::Ignore,
    }
}

/// Two optional node identities name the same node, or both are absent.
pub open spec fn same_selection(a: Option<NodeIdView>, b: Option<NodeIdView>) -> bool {
    match (a, b) {
        (Some(x), Some(y)) => crate::navigation_model::same_node(x, y),
        (None, None) => true,
        _ => false,
    }
}

/// The reason shown when the filter hides every row.
pub open spec fn no_rows_reason() -> Seq<char> {
    "no rows match current filter"@
}

/// The identity of the node a row refers to.
pub open spec fn row_node(sessions: Seq<SessionNode>, row: RowRef) -> NodeIdView {
    match row {
        RowRef::Session { s } => sessions[s].node_id@,
        RowRef::Tab { s, t } => sessions[s].tabs@[t].node_id@,
        RowRef::Pane { s, t, p } => sessions[s].tabs@[t].panes@[p].node_id@,
    }
}

/// The selected position among `count` rows: the stored one, kept below `count`; none
/// without rows.
pub open spec fn clamped_selection(selected: nat, count: nat) -> Option<nat> {
    if count > 0 {
        Some(if selected < count { selected } else { (count - 1) as nat })
    } else {
        None
    }
}

/// The browser's state.
pub struct AppState<L: SnapshotLoader> {
    model: NavigationModel,
    mode: InputMode,
    filter_query: String,
    selected_index: usize,
    pending_action: Option<SelectionAction>,
    snapshot_preview: SnapshotPreviewController<L>,
}

impl AppState<NoLoader> {
    /// A browser over `model` without snapshot loading.
    pub fn new(model: NavigationModel) -> (r: Self)
        ensures
            r.wf(),
            r.sessions() == model.sessions@,
            r.mode_spec() == InputMode::Navigate,
            r.filter_spec() == Seq::<char>::empty(),
            r.selection() == 0,
            r.pending_spec() is None,
    {
        let mut state = AppState {
            model,
            mode: InputMode::Navigate,
            filter_query: String::new(),
            selected_index: 0,
            pending_action: None,
            snapshot_preview: SnapshotPreviewController::disabled(),
        };
        state.refresh_snapshot_preview_for_selection_change(None);
        state
    }
}

impl<L: SnapshotLoader> AppState<L> {
    /// The sessions of the tree.
    pub closed spec fn sessions(&self) -> Seq<SessionNode> {
        self.model.sessions@
    }

    /// The input mode.
    pub closed spec fn mode_spec(&self) -> InputMode {
        self.mode
    }

    /// The filter query.
    pub closed spec fn filter_spec(&self) -> Seq<char> {
        self.filter_query@
    }

    /// The stored selected position.
    pub closed spec fn selection(&self) -> nat {
        self.selected_index as nat
    }

    /// The staged action.
    pub closed spec fn pending_spec(&self) -> Option<SelectionActionView> {
        match self.pending_action {
            Some(a) => Some(a@),
            None => None,
        }
    }

    /// The preview.
    pub closed spec fn preview(&self) -> SnapshotPreviewController<L> {
        self.snapshot_preview
    }

    /// The rows the tree shows under the filter.
    pub open spec fn rows(&self) -> Seq<RowRef> {
        visible_rows(self.sessions(), self.filter_spec())
    }

    /// The selection is a shown row, or `0` when no row is shown.
    pub open spec fn wf(&self) -> bool {
        if self.rows().len() == 0 {
            self.selection() == 0
        } else {
            self.selection() < self.rows().len()
        }
    }

    /// The identity of the selected node, if a row is shown.
    pub open spec fn selected_node(&self) -> Option<NodeIdView> {
        match clamped_selection(self.selection(), self.rows().len()) {
            Some(i) => Some(row_node(self.sessions(), self.rows()[i as int])),
            None => None,
        }
    }

    /// What the preview panel is about: the selected node's target, or why there is none.
    pub open spec fn target(&self) -> PreviewTargetView {
        match self.selected_node() {
            Some(id) => preview_spec(self.sessions(), id),
            None => PreviewTargetView::Unavailable { reason: no_rows_reason() },
        }
    }

    /// The input mode.
    pub fn mode(&self) -> (r: InputMode)
        ensures
            r == self.mode_spec(),
    {
        self.mode
    }

    /// The filter query.
    pub fn filter_query(&self) -> (r: &str)
        ensures
            r@ == self.filter_spec(),
    {
        self.filter_query.as_str()
    }

    /// The staged action, if any.
    pub fn pending_action(&self) -> (r: Option<&SelectionAction>)
        ensures
            match (r, self.pending_spec()) {
                (Some(a), Some(v)) => a@ == v,
                (None, None) => true,
                _ => false,
            },
    {
        self.pending_action.as_ref()
    }

    /// The rows the tree shows under the filter.
    pub fn visible_items(&self) -> (r: Vec<VisibleItem>)
        ensures
            crate::navigation_model::items_match(self.sessions(), self.rows(), r@),
    {
        if self.filter_query.as_str().unicode_len() == 0 {
            proof {
                assert(normalize_spec(self.filter_query@) =~= seq![]) by {
                    assert(self.filter_query@ =~= seq![]);
                    assert(crate::text::trim_seq(self.filter_query@) =~= seq![]);
                }
            }
            self.model.flatten_visible()
        } else {
            self.model.flatten_filtered(self.filter_query.as_str())
        }
    }

    /// The selected position among `visible_count` rows, kept below it; none without rows.
    pub fn selected_index(&self, visible_count: usize) -> (r: Option<usize>)
        ensures
            match (r, clamped_selection(self.selection(), visible_count as nat)) {
                (Some(i), Some(j)) => i == j,
                (None, None) => true,
                _ => false,
            },
    {
        if visible_count > 0 {
            Some(if self.selected_index < visible_count - 1 {
                self.selected_index
            } else {
                visible_count - 1
            })
        } else {
            None
        }
    }

    /// What the preview panel is about.
    pub fn current_preview_target(&self) -> (r: PreviewTarget)
        ensures
            r@ == self.target(),
    {
        let visible_items = self.visible_items();
        match self.selected_index(visible_items.len()) {
            Some(i) => {
                proof {
                    assert(crate::navigation_model::item_matches(
                        self.sessions(),
                        self.rows()[i as int],
                        visible_items@[i as int],
                    ));
                }
                self.model.resolve_preview_target(&visible_items[i].node_id)
            },
            None => {
                if visible_items.len() == 0 {
                    PreviewTarget::Unavailable { reason: "no rows match current filter" }
                } else {
                    PreviewTarget::Unavailable { reason: "no selection available" }
                }
            },
        }
    }

    /// What the preview shows.
    pub fn current_snapshot_preview_state(&self) -> (r: &SnapshotPreviewState)
        ensures
            r@ == self.preview().state_view(),
    {
        self.snapshot_preview.state()
    }

    /// The preview, for running its live subscription and handing back its reports.
    pub fn snapshot_preview_mut(&mut self) -> (r: &mut SnapshotPreviewController<L>)
        ensures
            *r == old(self).preview(),
            final(self).preview() == *final(r),
            final(self).sessions() == old(self).sessions(),
            final(self).mode_spec() == old(self).mode_spec(),
            final(self).filter_spec() == old(self).filter_spec(),
            final(self).selection() == old(self).selection(),
            final(self).pending_spec() == old(self).pending_spec(),
    {
        &mut self.snapshot_preview
    }

    /// The preview.
    pub fn snapshot_preview(&self) -> (r: &SnapshotPreviewController<L>)
        ensures
            *r == self.preview(),
    {
        &self.snapshot_preview
    }

    /// The identity of the selected node, if a row is shown.
    fn selected_node_id(&self) -> (r: Option<NodeId>)
        ensures
            match (r, self.selected_node()) {
                (Some(a), Some(b)) => a@ == b,
                (None, None) => true,
                _ => false,
            },
    {
        let visible_items = self.visible_items();
        match self.selected_index(visible_items.len()) {
            Some(i) => {
                proof {
                    assert(crate::navigation_model::item_matches(
                        self.sessions(),
                        self.rows()[i as int],
                        visible_items@[i as int],
                    ));
                }
                Some(visible_items[i].node_id.clone())
            },
            None => None,
        }
    }

    /// Follows a change of the selected node in the preview.
    fn refresh_snapshot_preview_for_selection_change(&mut self, previous_selection: Option<NodeId>)
        ensures
            ({
                let prev = match previous_selection {
                    Some(id) => Some(id@),
                    None => None,
                };
                if same_selection(old(self).selected_node(), prev) {
                    final(self).preview() == old(self).preview()
                } else {
                    crate::tui::preview::refreshed(
                        old(self).preview(),
                        final(self).preview(),
                        old(self).target(),
                    )
                }
            }),
            final(self).preview().has_loader() == old(self).preview().has_loader(),
            final(self).sessions() == old(self).sessions(),
            final(self).mode_spec() == old(self).mode_spec(),
            final(self).filter_spec() == old(self).filter_spec(),
            final(self).selection() == old(self).selection(),
            final(self).pending_spec() == old(self).pending_spec(),
    {
        let current_selection = self.selected_node_id();
        let unchanged = match (&current_selection, &previous_selection) {
            (Some(a), Some(b)) => *a == *b,
            (None, None) => true,
            _ => false,
        };
        if unchanged {
            return;
        }
        let preview_target = self.current_preview_target();
        self.snapshot_preview.refresh_for_target(&preview_target);
    }
}

/// The selected position after a move down among `count` rows.
pub open spec fn next_selection(selected: nat, count: nat) -> nat {
    if count > 0 {
        if selected + 1 < count {
            selected + 1
        } else {
            (count - 1) as nat
        }
    } else {
        selected
    }
}

/// The selected position after a move up.
pub open spec fn previous_selection(selected: nat) -> nat {
    if selected > 0 {
        (selected - 1) as nat
    } else {
        0
    }
}

/// The selected position kept below `count`, or `0` without rows.
pub open spec fn clamp_spec(selected: nat, count: nat) -> nat {
    if count == 0 {
        0
    } else if selected < count {
        selected
    } else {
        (count - 1) as nat
    }
}

/// The action Enter stages: the selected node's, or no action without a selection.
pub open spec fn staged_action<L: SnapshotLoader>(s: AppState<L>) -> SelectionActionView {
    match s.selected_node() {
        Some(id) => action_spec(s.sessions(), id),
        None => SelectionActionView::NoAction,
    }
}

/// The key quits: Ctrl-C, `q` in navigation, or Esc with no filter to clear and no filter
/// mode to leave.
pub open spec fn quits<L: SnapshotLoader>(s: AppState<L>, cmd: KeyCommand) -> bool {
    ||| cmd == KeyCommand::Quit
    ||| (cmd == KeyCommand::Escape && s.filter_spec().len() == 0 && s.mode_spec()
        == InputMode::Navigate)
}

/// `new` has the mode, filter, selection and staged action that `cmd` (which does not quit)
/// gives from `old`.
pub open spec fn ui_step<L: SnapshotLoader>(
    old: AppState<L>,
    cmd: KeyCommand,
    new: AppState<L>,
) -> bool {
    let count = old.rows().len();
    match cmd {
        KeyCommand::MoveNext => {
            &&& new.selection() == next_selection(old.selection(), count)
            &&& new.mode_spec() == old.mode_spec()
            &&& new.filter_spec() == old.filter_spec()
            &&& new.pending_spec() == old.pending_spec()
        },
        KeyCommand::MovePrevious => {
            &&& new.selection() == previous_selection(old.selection())
            &&& new.mode_spec() == old.mode_spec()
            &&& new.filter_spec() == old.filter_spec()
            &&& new.pending_spec() == old.pending_spec()
        },
        KeyCommand::EnterFilter => {
            &&& new.mode_spec() == InputMode::Filter
            &&& new.selection() == old.selection()
            &&& new.filter_spec() == old.filter_spec()
            &&& new.pending_spec() == old.pending_spec()
        },
        KeyCommand::Escape => if old.filter_spec().len() > 0 {
            &&& new.filter_spec() == Seq::<char>::empty()
            &&& new.selection() == clamp_spec(
                old.selection(),
                visible_rows(old.sessions(), Seq::<char>::empty()).len(),
            )
            &&& new.mode_spec() == old.mode_spec()
            &&& new.pending_spec() == old.pending_spec()
        } else {
            &&& new.mode_spec() == InputMode::Navigate
            &&& new.selection() == old.selection()
            &&& new.filter_spec() == old.filter_spec()
            &&& new.pending_spec() == old.pending_spec()
        },
        KeyCommand::Stage => {
            &&& new.pending_spec() == Some(staged_action(old))
            &&& new.mode_spec() == old.mode_spec()
            &&& new.filter_spec() == old.filter_spec()
            &&& new.selection() == old.selection()
        },
        KeyCommand::FilterPop => {
            &&& new.filter_spec() == (if old.filter_spec().len() > 0 {
                old.filter_spec().drop_last()
            } else {
                old.filter_spec()
            })
            &&& new.selection() == 0
            &&& new.mode_spec() == InputMode::Filter
            &&& new.pending_spec() == old.pending_spec()
        },
        KeyCommand::FilterPush(c) => {
            &&& new.filter_spec() == old.filter_spec().push(c)
            &&& new.selection() == 0
            &&& new.mode_spec() == InputMode::Filter
            &&& new.pending_spec() == old.pending_spec()
        },
        _ => {
            &&& new.mode_spec() == old.mode_spec()
            &&& new.filter_spec() == old.filter_spec()
            &&& new.selection() == old.selection()
            &&& new.pending_spec() == old.pending_spec()
        },
    }
}

impl<L: SnapshotLoader> AppState<L> {
    /// A browser over `model` whose preview loads with `loader`.
    pub fn new_with_snapshot_loader(model: NavigationModel, loader: L) -> (r: Self)
        ensures
            r.wf(),
            r.sessions() == model.sessions@,
            r.mode_spec() == InputMode::Navigate,
            r.filter_spec() == Seq::<char>::empty(),
            r.selection() == 0,
            r.pending_spec() is None,
            r.preview().has_loader(),
    {
        let mut state = AppState {
            model,
            mode: InputMode::Navigate,
            filter_query: String::new(),
            selected_index: 0,
            pending_action: None,
            snapshot_preview: SnapshotPreviewController::with_loader(loader),
        };
        state.refresh_snapshot_preview_for_selection_change(None);
        state
    }

    /// The number of rows shown.
    fn visible_count(&self) -> (r: usize)
        ensures
            r == self.rows().len(),
    {
        self.visible_items().len()
    }

    /// Moves the selection down, stopping at the last row.
    fn move_next(&mut self)
        requires
            old(self).wf(),
        ensures
            final(self).selection() == next_selection(old(self).selection(), old(self).rows().len()),
            final(self).sessions() == old(self).sessions(),
            final(self).mode_spec() == old(self).mode_spec(),
            final(self).filter_spec() == old(self).filter_spec(),
            final(self).pending_spec() == old(self).pending_spec(),
            final(self).preview() == old(self).preview(),
    {
        let visible_count = self.visible_count();
        if visible_count > 0 {
            self.selected_index = if self.selected_index + 1 < visible_count {
                self.selected_index + 1
            } else {
                visible_count - 1
            };
        }
    }

    /// Moves the selection up, stopping at the first row.
    fn move_previous(&mut self)
        ensures
            final(self).selection() == previous_selection(old(self).selection()),
            final(self).sessions() == old(self).sessions(),
            final(self).mode_spec() == old(self).mode_spec(),
            final(self).filter_spec() == old(self).filter_spec(),
            final(self).pending_spec() == old(self).pending_spec(),
            final(self).preview() == old(self).preview(),
    {
        self.selected_index = if self.selected_index > 0 {
            self.selected_index - 1
        } else {
            0
        };
    }

    /// Keeps the selection among the shown rows.
    fn clamp_selection(&mut self)
        ensures
            final(self).selection() == clamp_spec(old(self).selection(), old(self).rows().len()),
            final(self).sessions() == old(self).sessions(),
            final(self).mode_spec() == old(self).mode_spec(),
            final(self).filter_spec() == old(self).filter_spec(),
            final(self).pending_spec() == old(self).pending_spec(),
            final(self).preview() == old(self).preview(),
    {
        let visible_count = self.visible_count();
        if visible_count == 0 {
            self.selected_index = 0;
            return;
        }
        if self.selected_index >= visible_count {
            self.selected_index = visible_count - 1;
        }
    }

    /// After the filter changed: the first row is selected and the filter mode stays on.
    fn on_filter_updated(&mut self)
        ensures
            final(self).selection() == 0,
            final(self).mode_spec() == InputMode::Filter,
            final(self).sessions() == old(self).sessions(),
            final(self).filter_spec() == old(self).filter_spec(),
            final(self).pending_spec() == old(self).pending_spec(),
            final(self).preview() == old(self).preview(),
    {
        self.selected_index = 0;
        self.mode = InputMode::Filter;
        self.clamp_selection();
    }

    /// Esc: clears a filter, else leaves the filter mode, else quits.
    fn handle_escape(&mut self) -> (r: EventResult)
        ensures
            r == (if old(self).filter_spec().len() == 0 && old(self).mode_spec()
                == InputMode::Navigate {
                EventResult::Quit
            } else {
                EventResult::Continue
            }),
            r == EventResult::Continue ==> ui_step(*old(self), KeyCommand::Escape, *final(self)),
            r == EventResult::Quit ==> *final(self) == *old(self),
            final(self).sessions() == old(self).sessions(),
            final(self).preview() == old(self).preview(),
    {
        if self.filter_query.as_str().unicode_len() > 0 {
            self.filter_query = String::new();
            self.clamp_selection();
            return EventResult::Continue;
        }
        if self.mode == InputMode::Filter {
            self.mode = InputMode::Navigate;
            return EventResult::Continue;
        }
        EventResult::Quit
    }

    /// Enter: stages the selected node's action, or no action without a selection.
    fn stage_selection_action(&mut self)
        ensures
            final(self).pending_spec() == Some(staged_action(*old(self))),
            final(self).sessions() == old(self).sessions(),
            final(self).mode_spec() == old(self).mode_spec(),
            final(self).filter_spec() == old(self).filter_spec(),
            final(self).selection() == old(self).selection(),
            final(self).preview() == old(self).preview(),
    {
        let visible_items = self.visible_items();
        match self.selected_index(visible_items.len()) {
            Some(i) => {
                proof {
                    assert(crate::navigation_model::item_matches(
                        self.sessions(),
                        self.rows()[i as int],
                        visible_items@[i as int],
                    ));
                }
                let action = self.model.resolve_selection_action(&visible_items[i].node_id);
                self.pending_action = Some(action);
            },
            None => {
                self.pending_action = Some(SelectionAction::NoAction);
            },
        }
    }

    /// Deletes the last character of the filter, if any.
    fn pop_filter_char(&mut self)
        ensures
            final(self).filter_spec() == (if old(self).filter_spec().len() > 0 {
                old(self).filter_spec().drop_last()
            } else {
                old(self).filter_spec()
            }),
            final(self).sessions() == old(self).sessions(),
            final(self).mode_spec() == old(self).mode_spec(),
            final(self).selection() == old(self).selection(),
            final(self).pending_spec() == old(self).pending_spec(),
            final(self).preview() == old(self).preview(),
    {
        let cs = chars_of(self.filter_query.as_str());
        if cs.len() > 0 {
            let mut kept: Vec<char> = Vec::new();
            let mut i: usize = 0;
            while i + 1 < cs.len()
                invariant
                    cs.len() > 0,
                    i + 1 <= cs.len(),
                    kept@ == cs@.take(i as int),
                decreases cs.len() - i,
            {
                kept.push(cs[i]);
                i = i + 1;
                assert(kept@ =~= cs@.take(i as int));
            }
            assert(kept@ =~= cs@.drop_last());
            self.filter_query = string_from_chars(kept.as_slice());
        }
    }

    /// Types a character at the end of the filter.
    fn push_filter_char(&mut self, c: char)
        ensures
            final(self).filter_spec() == old(self).filter_spec().push(c),
            final(self).sessions() == old(self).sessions(),
            final(self).mode_spec() == old(self).mode_spec(),
            final(self).selection() == old(self).selection(),
            final(self).pending_spec() == old(self).pending_spec(),
            final(self).preview() == old(self).preview(),
    {
        let mut cs = chars_of(self.filter_query.as_str());
        cs.push(c);
        self.filter_query = string_from_chars(cs.as_slice());
    }
}

/// `new` and `r` are what the key `key` gives from `old`: a quitting key ends the preview's
/// live subscription and changes nothing else; any other key changes the mode, filter,
/// selection or staged action as [`ui_step`] says, keeps the selection among the shown rows,
/// and refreshes the preview when the selected node changed.
pub open spec fn key_step<L: SnapshotLoader>(
    old: AppState<L>,
    key: KeyPress,
    r: EventResult,
    new: AppState<L>,
) -> bool {
    let cmd = key_command(old.mode_spec(), key);
    &&& r == (if quits(old, cmd) {
        EventResult::Quit
    } else {
        EventResult::Continue
    })
    &&& new.wf()
    &&& new.sessions() == old.sessions()
    &&& new.preview().has_loader() == old.preview().has_loader()
    &&& quits(old, cmd) ==> {
        &&& new.mode_spec() == old.mode_spec()
        &&& new.filter_spec() == old.filter_spec()
        &&& new.selection() == old.selection()
        &&& new.pending_spec() == old.pending_spec()
        &&& new.preview().worker() is None
        &&& new.preview().state_view() == old.preview().state_view()
    }
    &&& !quits(old, cmd) ==> {
        &&& ui_step(old, cmd, new)
        &&& if same_selection(old.selected_node(), new.selected_node()) {
            new.preview() == old.preview()
        } else {
            crate::tui::preview::refreshed(
                old.preview(),
                new.preview(),
                new.target(),
            )
        }
    }
}

impl<L: SnapshotLoader> AppState<L> {
    /// Applies a key. A quitting key stops the preview's live subscription and changes nothing
    /// else; any other key changes the mode, filter, selection or staged action as
    /// [`ui_step`] says, keeps the selection among the shown rows, and refreshes the preview
    /// when the selected node changed.
    pub fn handle_key_press(&mut self, key: KeyPress) -> (r: EventResult)
        requires
            old(self).wf(),
        ensures
            key_step(*old(self), key, r, *final(self)),
    {
        let previous_selection = self.selected_node_id();
        let command = classify_key(self.mode, key);
        let result = match command {
            KeyCommand::Quit => EventResult::Quit,
            KeyCommand::MoveNext => {
                self.move_next();
                EventResult::Continue
            },
            KeyCommand::MovePrevious => {
                self.move_previous();
                EventResult::Continue
            },
            KeyCommand::EnterFilter => {
                self.mode = InputMode::Filter;
                EventResult::Continue
            },
            KeyCommand::Escape => self.handle_escape(),
            KeyCommand::Stage => {
                self.stage_selection_action();
                EventResult::Continue
            },
            KeyCommand::FilterPop => {
                self.pop_filter_char();
                self.on_filter_updated();
                EventResult::Continue
            },
            KeyCommand::FilterPush(c) => {
                self.push_filter_char(c);
                self.on_filter_updated();
                EventResult::Continue
            },
            KeyCommand::Ignore => EventResult::Continue,
        };
        if result == EventResult::Quit {
            self.snapshot_preview.shutdown();
            return result;
        }
        self.refresh_snapshot_preview_for_selection_change(previous_selection);
        result
    }

    /// Applies a terminal key event (see [`AppState::handle_key_press`]).
    pub fn handle_key_event(&mut self, key: KeyEvent) -> (r: EventResult)
        requires
            old(self).wf(),
        ensures
            final(self).wf(),
            key_step(*old(self), key_press_of(key), r, *final(self)),
    {
        let press = key_press(&key);
        self.handle_key_press(press)
    }
}

/// Ctrl-C quits from either mode, whatever else the key is.
pub proof fn law_ctrl_c_quits_in_any_mode(mode: InputMode, key: KeyPress)
    requires
        key.input == KeyInput::Char('c'),
        key.control,
        !key.release,
    ensures
        key_command(mode, key) == KeyCommand::Quit,
{
}

/// `q` quits in navigation, and is typed into the filter in filter mode.
pub proof fn law_q_quits_only_in_navigation(key: KeyPress)
    requires
        key.input == KeyInput::Char('q'),
        !key.control,
        !key.alt,
        !key.release,
    ensures
        key_command(InputMode::Navigate, key) == KeyCommand::Quit,
        key_command(InputMode::Filter, key) == KeyCommand::FilterPush('q'),
{
}

/// A key release does nothing.
pub proof fn law_key_release_is_ignored(mode: InputMode, key: KeyPress)
    requires
        key.release,
    ensures
        key_command(mode, key) == KeyCommand::Ignore,
{
}

/// A key with no modifier, pressed (not released).
pub open spec fn plain_key(input: KeyInput) -> KeyPress {
    KeyPress { input, control: false, alt: false, release: false }
}

/// While the filter is being edited, every character typed without Control or Alt goes into
/// the filter, `j`, `k`, `q` and `/` included.
pub proof fn law_filter_mode_types_every_character(c: char)
    ensures
        key_command(InputMode::Filter, plain_key(KeyInput::Char(c))) == KeyCommand::FilterPush(c),
{
}

/// In navigation `j` and Down move to the next row, `k` and Up to the previous one, `/` starts
/// the filter, Enter stages the action and Esc escapes; in the filter Up and Down still move,
/// Backspace deletes and Enter and Esc keep their meaning.
pub proof fn law_navigation_keys()
    ensures
        key_command(InputMode::Navigate, plain_key(KeyInput::Char('j'))) == KeyCommand::MoveNext,
        key_command(InputMode::Navigate, plain_key(KeyInput::Down)) == KeyCommand::MoveNext,
        key_command(InputMode::Navigate, plain_key(KeyInput::Char('k'))) == KeyCommand::MovePrevious,
        key_command(InputMode::Navigate, plain_key(KeyInput::Up)) == KeyCommand::MovePrevious,
        key_command(InputMode::Navigate, plain_key(KeyInput::Char('/'))) == KeyCommand::EnterFilter,
        key_command(InputMode::Navigate, plain_key(KeyInput::Enter)) == KeyCommand::Stage,
        key_command(InputMode::Navigate, plain_key(KeyInput::Esc)) == KeyCommand::Escape,
        key_command(InputMode::Filter, plain_key(KeyInput::Down)) == KeyCommand::MoveNext,
        key_command(InputMode::Filter, plain_key(KeyInput::Up)) == KeyCommand::MovePrevious,
        key_command(InputMode::Filter, plain_key(KeyInput::Backspace)) == KeyCommand::FilterPop,
        key_command(InputMode::Filter, plain_key(KeyInput::Enter)) == KeyCommand::Stage,
        key_command(InputMode::Filter, plain_key(KeyInput::Esc)) == KeyCommand::Escape,
        key_command(InputMode::Navigate, plain_key(KeyInput::Char('q'))) == KeyCommand::Quit,
{
}

/// Control-C quits in either mode; the release of a key does nothing; a character typed with
/// Control or Alt held does not go into the filter.
pub proof fn law_quit_release_and_modifiers(mode: InputMode, input: KeyInput, c: char, alt: bool)
    ensures
        key_command(mode, KeyPress { input: KeyInput::Char('c'), control: true, alt, release: false })
            == KeyCommand::Quit,
        key_command(mode, KeyPress { input, control: false, alt, release: true })
            == KeyCommand::Ignore,
        !(key_command(mode, KeyPress { input: KeyInput::Char(c), control: true, alt, release: false })
            is FilterPush),
        !(key_command(mode, KeyPress { input: KeyInput::Char(c), control: false, alt: true, release: false })
            is FilterPush),
{
}

} // verus!
