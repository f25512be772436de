//! The fixed listings the demo browser shows, and the tree built from them.

use vstd::prelude::*;

use crate::navigation_model::{
    session_built_from, NavigationModel, SessionScopedData, SourceFreshness,
};
use crate::runtime_discovery::{
    parse_runtime_snapshot, snapshot_outcome, ParsedRuntimeSnapshot, RuntimeDiscoveryError,
};
use crate::text::concat2;

verus! {

/// A `zellij list-sessions --no-formatting` listing.
pub const SESSIONS_FIXTURE: &'static str = "zellijess [Created 4m 26s ago] \nwork-base [Created 1h 02m ago] (active)\nwork-archive [Created 3days ago] (EXITED - attach to resurrect)\nwork-current [Created 12s ago] (current)\nwork-review [Created 2h 15m ago] (ACTIVE)\nwork-detached [Created 9m 03s ago] (detached)\nwork-no-metadata\n";

/// A `zellij action list-tabs --json --all` listing: an editor tab and a logs tab, the latter
/// with the legacy numeric `panes_to_hide`.
pub const TABS_FIXTURE: &'static str = "[\n  {\"position\": 0, \"name\": \"editor\", \"active\": true, \"panes_to_hide\": [], \"is_fullscreen_active\": false, \"is_sync_panes_active\": false, \"are_floating_panes_visible\": false, \"other_focused_clients\": [], \"active_swap_layout_name\": \"default\", \"is_swap_layout_dirty\": false, \"viewport_rows\": 40, \"viewport_columns\": 120, \"display_area_rows\": 42, \"display_area_columns\": 120, \"selectable_tiled_panes_count\": 2, \"selectable_floating_panes_count\": 0, \"tab_id\": 1, \"has_bell_notification\": false, \"is_flashing_bell\": false},\n  {\"position\": 1, \"name\": \"logs\", \"active\": false, \"panes_to_hide\": 0, \"is_fullscreen_active\": false, \"is_sync_panes_active\": false, \"are_floating_panes_visible\": false, \"other_focused_clients\": [], \"active_swap_layout_name\": null, \"is_swap_layout_dirty\": false, \"tab_id\": 2, \"has_bell_notification\": false, \"is_flashing_bell\": false}\n]\n";

/// A `zellij action list-panes --json --all` listing: an editor pane and a shell pane of the
/// editor tab.
pub const PANES_FIXTURE: &'static str = "[\n  {\"id\": 3, \"is_plugin\": false, \"is_focused\": true, \"is_fullscreen\": false, \"is_floating\": false, \"is_suppressed\": false, \"title\": \"nvim\", \"exited\": false, \"exit_status\": null, \"is_held\": false, \"pane_x\": 0, \"pane_content_x\": 1, \"pane_y\": 0, \"pane_content_y\": 1, \"pane_rows\": 40, \"pane_content_rows\": 38, \"pane_columns\": 60, \"pane_content_columns\": 58, \"cursor_coordinates_in_pane\": {\"x\": 3, \"y\": 4}, \"terminal_command\": null, \"plugin_url\": null, \"is_selectable\": true, \"index_in_pane_group\": {}, \"default_fg\": \"#c0caf5\", \"default_bg\": null, \"tab_id\": 1, \"tab_position\": 0, \"tab_name\": \"editor\", \"pane_command\": \"nvim\", \"pane_cwd\": \"/workspace/sanitized/project\"},\n  {\"id\": 4, \"is_plugin\": false, \"is_focused\": false, \"is_fullscreen\": false, \"is_floating\": false, \"is_suppressed\": false, \"title\": \"shell\", \"exited\": false, \"is_held\": false, \"pane_x\": 60, \"pane_content_x\": 61, \"pane_y\": 0, \"pane_content_y\": 1, \"pane_rows\": 40, \"pane_content_rows\": 38, \"pane_columns\": 60, \"pane_content_columns\": 58, \"is_selectable\": true, \"index_in_pane_group\": 1, \"tab_id\": 1, \"tab_position\": 0, \"tab_name\": \"editor\", \"pane_command\": \"bash\", \"pane_cwd\": null}\n]\n";

/// The demo listings did not parse.
#[derive(Debug)]
pub struct DemoDataError {
    pub source: RuntimeDiscoveryError,
}

impl DemoDataError {
    /// The message that explains the failure.
    pub fn message(&self) -> (r: String)
        ensures
            r@.take(30) == "failed to parse fixture data: "@,
    {
        let detail = self.source.message();
        let r = concat2("failed to parse fixture data: ", detail.as_str());
        proof {
            reveal_strlit("failed to parse fixture data: ");
            assert(r@.take(30) =~= "failed to parse fixture data: "@);
        }
        r
    }
}

/// `data` holds the parsed sessions in order, all of runtime freshness, the first with all
/// the parsed tabs and panes and the others with none.
pub open spec fn demo_scoped(parsed: ParsedRuntimeSnapshot, data: Seq<SessionScopedData>) -> bool {
    &&& data.len() == parsed.sessions@.len()
    &&& forall|i: int|
        0 <= i < data.len() ==> {
            &&& (#[trigger] data[i]).session == parsed.sessions@[i]
            &&& data[i].source_freshness == SourceFreshness::Runtime
            &&& data[i].tabs@ == (if i == 0 {
                parsed.tabs@
            } else {
                Seq::empty()
            })
            &&& data[i].panes@ == (if i == 0 {
                parsed.panes@
            } else {
                Seq::empty()
            })
        }
}

/// The sessions of a discovery as the demo shows them: the first session holds all tabs and
/// panes.
pub fn demo_scoped_data(parsed: ParsedRuntimeSnapshot) -> (r: Vec<SessionScopedData>)
    ensures
        demo_scoped(parsed, r@),
{
    let ghost p = parsed;
    let ParsedRuntimeSnapshot { sessions, tabs, panes } = parsed;
    let mut fixture_tabs = Some(tabs);
    let mut fixture_panes = Some(panes);
    let mut rest = sessions;
    let mut out: Vec<SessionScopedData> = Vec::new();
    let ghost all = rest@;
    while rest.len() > 0
        invariant
            all == p.sessions@,
            out@.len() <= all.len(),
            rest@ == all.skip(out@.len() as int),
            out@.len() == 0 ==> fixture_tabs == Some(p.tabs) && fixture_panes == Some(p.panes),
            out@.len() > 0 ==> fixture_tabs is None && fixture_panes is None,
            forall|i: int|
                0 <= i < out@.len() ==> {
                    &&& (#[trigger] out@[i]).session == all[i]
                    &&& out@[i].source_freshness == SourceFreshness::Runtime
                    &&& out@[i].tabs@ == (if i == 0 {
                        p.tabs@
                    } else {
                        Seq::empty()
                    })
                    &&& out@[i].panes@ == (if i == 0 {
                        p.panes@
                    } else {
                        Seq::empty()
                    })
                },
        decreases rest.len(),
    {
        let ghost n = out@.len() as int;
        let session = rest.remove(0);
        assert(all.skip(n).drop_first() =~= all.skip(n + 1));
        let session_tabs = match fixture_tabs.take() {
            Some(t) => t,
            None => Vec::new(),
        };
        let session_panes = match fixture_panes.take() {
            Some(p) => p,
            None => Vec::new(),
        };
        out.push(
            SessionScopedData {
                session,
                tabs: session_tabs,
                panes: session_panes,
                source_freshness: SourceFreshness::Runtime,
            },
        );
    }
    out
}

/// The tree of the demo listings.
pub fn load_navigation_model() -> (r: Result<NavigationModel, DemoDataError>)
    ensures
        exists|parsed: Result<ParsedRuntimeSnapshot, RuntimeDiscoveryError>|
            #[trigger] snapshot_outcome(SESSIONS_FIXTURE@, TABS_FIXTURE@, PANES_FIXTURE@, parsed)
                && match (parsed, r) {
                (Ok(p), Ok(m)) => exists|data: Seq<SessionScopedData>|
                    #[trigger] demo_scoped(p, data) && m.sessions@.len() == data.len() && forall|
                        i: int,
                    |
                        0 <= i < data.len() ==> session_built_from(
                            #[trigger] m.sessions@[i],
                            data[i],
                        ),
                (Err(e), Err(d)) => d.source == e,
                _ => false,
            },
{
    let parsed = match parse_runtime_snapshot(SESSIONS_FIXTURE, TABS_FIXTURE, PANES_FIXTURE) {
        Ok(parsed) => parsed,
        Err(source) => {
            let ghost res = Err::<ParsedRuntimeSnapshot, RuntimeDiscoveryError>(source);
            let r = Err(DemoDataError { source });
            assert(snapshot_outcome(SESSIONS_FIXTURE@, TABS_FIXTURE@, PANES_FIXTURE@, res));
            return r;
        },
    };
    let ghost p = parsed;
    assert(snapshot_outcome(
        SESSIONS_FIXTURE@,
        TABS_FIXTURE@,
        PANES_FIXTURE@,
        Ok::<ParsedRuntimeSnapshot, RuntimeDiscoveryError>(p),
    ));
    let scoped_data = demo_scoped_data(parsed);
    let ghost d = scoped_data@;
    let m = NavigationModel::from_session_scoped_data(scoped_data);
    assert(demo_scoped(p, d));
    Ok(m)
}

} // verus!
