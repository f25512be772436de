use std::collections::HashSet;

use zellijess::navigation_model::{
    NavigationModel, NodeId, PaneKind, PreviewTarget, SelectionAction, SessionScopedData,
    SourceFreshness,
};
use zellijess::runtime_discovery::parsing::{
    parse_panes_output, parse_sessions_output, parse_tabs_output,
};
use zellijess::tui::demo_data::{PANES_FIXTURE, SESSIONS_FIXTURE, TABS_FIXTURE};

fn build_fixture_model() -> NavigationModel {
    let sessions = parse_sessions_output(SESSIONS_FIXTURE)
        .expect("sessions fixture should parse for navigation model tests");
    let tabs = parse_tabs_output(TABS_FIXTURE).expect("tabs fixture should parse for tests");
    let mut panes = parse_panes_output(PANES_FIXTURE).expect("panes fixture should parse for tests");

    let mut plugin_pane = panes[0].clone();
    plugin_pane.is_plugin = true;
    plugin_pane.is_selectable = false;
    plugin_pane.title = Some("status".to_owned());
    plugin_pane.terminal_command = None;
    plugin_pane.pane_command = None;
    plugin_pane.pane_cwd = None;
    plugin_pane.plugin_url = Some("zellij:status-bar".to_owned());
    panes.push(plugin_pane);

    let mut non_selectable_terminal = panes[1].clone();
    non_selectable_terminal.id = 9;
    non_selectable_terminal.is_selectable = false;
    non_selectable_terminal.title = Some("monitor".to_owned());
    panes.push(non_selectable_terminal);

    NavigationModel::from_session_scoped_data(vec![
        SessionScopedData {
            session: sessions[0].clone(),
            tabs: tabs.clone(),
            panes,
            source_freshness: SourceFreshness::Runtime,
        },
        SessionScopedData {
            session: sessions[3].clone(),
            tabs: Vec::new(),
            panes: Vec::new(),
            source_freshness: SourceFreshness::Cache,
        },
    ])
}

#[test]
fn builds_tree_with_stable_session_tab_and_pane_ids() {
    let model = build_fixture_model();

    assert_eq!(model.sessions.len(), 2);
    assert!(matches!(
        &model.sessions[0].node_id,
        NodeId::Session { session_name } if session_name == "zellijess"
    ));

    let editor_tab = &model.sessions[0].tabs[0];
    assert!(matches!(
        &editor_tab.node_id,
        NodeId::Tab {
            session_name,
            tab_id: 1,
            tab_position: 0,
        } if session_name == "zellijess"
    ));

    assert!(editor_tab.panes.iter().any(|pane| {
        matches!(
            &pane.node_id,
            NodeId::Pane {
                tab_id: 1,
                tab_position: 0,
                pane_id: 3,
                pane_kind: PaneKind::Terminal,
                ..
            }
        )
    }));
    assert!(editor_tab.panes.iter().any(|pane| {
        matches!(
            &pane.node_id,
            NodeId::Pane {
                tab_id: 1,
                tab_position: 0,
                pane_id: 3,
                pane_kind: PaneKind::Plugin,
                ..
            }
        )
    }));
}

#[test]
fn flatten_visible_returns_session_tab_pane_order() {
    let model = build_fixture_model();
    let visible = model.flatten_visible();

    let ids: Vec<NodeId> = visible.iter().map(|item| item.node_id.clone()).collect();
    assert_eq!(ids.len(), 8);
    assert!(matches!(&ids[0], NodeId::Session { session_name } if session_name == "zellijess"));
    assert!(matches!(
        &ids[1],
        NodeId::Tab {
            tab_id: 1,
            tab_position: 0,
            ..
        }
    ));
    assert!(matches!(
        &ids[2],
        NodeId::Pane {
            pane_id: 3,
            pane_kind: PaneKind::Terminal,
            ..
        }
    ));
    assert!(matches!(
        &ids[3],
        NodeId::Pane {
            pane_id: 4,
            pane_kind: PaneKind::Terminal,
            ..
        }
    ));
    assert!(matches!(
        &ids[4],
        NodeId::Pane {
            pane_id: 3,
            pane_kind: PaneKind::Plugin,
            ..
        }
    ));
    assert!(matches!(
        &ids[5],
        NodeId::Pane {
            pane_id: 9,
            pane_kind: PaneKind::Terminal,
            ..
        }
    ));
    assert!(matches!(
        &ids[6],
        NodeId::Tab {
            tab_id: 2,
            tab_position: 1,
            ..
        }
    ));
    assert!(matches!(&ids[7], NodeId::Session { session_name } if session_name == "work-current"));

    assert_eq!(visible[0].depth, 0);
    assert_eq!(visible[1].depth, 1);
    assert_eq!(visible[2].depth, 2);
}

#[test]
fn filtering_matches_session_tab_and_pane_fields_case_insensitively() {
    let model = build_fixture_model();

    let session_filtered = model.flatten_filtered("CURRENT");
    assert!(session_filtered.iter().any(
        |item| matches!(&item.node_id, NodeId::Session { session_name } if session_name == "work-current")
    ));

    let tab_filtered = model.flatten_filtered("LoGs");
    assert!(tab_filtered
        .iter()
        .any(|item| matches!(&item.node_id, NodeId::Tab { tab_id: 2, .. })));

    let pane_command_filtered = model.flatten_filtered("nvim");
    assert!(pane_command_filtered.iter().any(|item| {
        matches!(
            &item.node_id,
            NodeId::Pane {
                pane_id: 3,
                pane_kind: PaneKind::Terminal,
                ..
            }
        )
    }));

    let pane_cwd_filtered = model.flatten_filtered("/workspace/sanitized/project");
    assert!(pane_cwd_filtered.iter().any(|item| {
        matches!(
            &item.node_id,
            NodeId::Pane {
                pane_id: 3,
                pane_kind: PaneKind::Terminal,
                ..
            }
        )
    }));

    let pane_kind_filtered = model.flatten_filtered("plugin");
    assert!(pane_kind_filtered.iter().any(|item| {
        matches!(
            &item.node_id,
            NodeId::Pane {
                pane_id: 3,
                pane_kind: PaneKind::Plugin,
                ..
            }
        )
    }));
}

#[test]
fn resolves_preview_targets_and_selection_actions_without_fake_plugin_focus() {
    let model = build_fixture_model();

    let session_id = NodeId::Session {
        session_name: "zellijess".to_owned(),
    };
    assert_eq!(
        model.resolve_preview_target(&session_id),
        PreviewTarget::SessionSummary {
            session_name: "zellijess".to_owned(),
            source_freshness: SourceFreshness::Runtime,
        }
    );
    assert_eq!(
        model.resolve_selection_action(&session_id),
        SelectionAction::SwitchSession {
            session_name: "zellijess".to_owned(),
        }
    );

    let tab_id = NodeId::Tab {
        session_name: "zellijess".to_owned(),
        tab_id: 1,
        tab_position: 0,
    };
    assert_eq!(
        model.resolve_preview_target(&tab_id),
        PreviewTarget::TabSummary {
            session_name: "zellijess".to_owned(),
            tab_id: 1,
            tab_position: 0,
            source_freshness: SourceFreshness::Runtime,
        }
    );
    assert_eq!(
        model.resolve_selection_action(&tab_id),
        SelectionAction::SwitchTab {
            session_name: "zellijess".to_owned(),
            tab_id: 1,
            tab_position: 0,
        }
    );

    let terminal_pane_id = NodeId::Pane {
        session_name: "zellijess".to_owned(),
        tab_id: 1,
        tab_position: 0,
        pane_id: 3,
        pane_kind: PaneKind::Terminal,
    };
    assert_eq!(
        model.resolve_preview_target(&terminal_pane_id),
        PreviewTarget::PaneSnapshotCandidate {
            session_name: "zellijess".to_owned(),
            tab_id: 1,
            tab_position: 0,
            pane_id: 3,
            source_freshness: SourceFreshness::Runtime,
        }
    );
    assert_eq!(
        model.resolve_selection_action(&terminal_pane_id),
        SelectionAction::FocusPane {
            session_name: "zellijess".to_owned(),
            tab_id: 1,
            tab_position: 0,
            pane_id: 3,
        }
    );

    let plugin_pane_id = NodeId::Pane {
        session_name: "zellijess".to_owned(),
        tab_id: 1,
        tab_position: 0,
        pane_id: 3,
        pane_kind: PaneKind::Plugin,
    };
    assert!(matches!(
        model.resolve_preview_target(&plugin_pane_id),
        PreviewTarget::Unavailable { .. }
    ));
    assert_eq!(
        model.resolve_selection_action(&plugin_pane_id),
        SelectionAction::NoAction
    );

    let non_selectable_terminal_pane_id = NodeId::Pane {
        session_name: "zellijess".to_owned(),
        tab_id: 1,
        tab_position: 0,
        pane_id: 9,
        pane_kind: PaneKind::Terminal,
    };
    assert!(matches!(
        model.resolve_preview_target(&non_selectable_terminal_pane_id),
        PreviewTarget::Unavailable { .. }
    ));
    assert_eq!(
        model.resolve_selection_action(&non_selectable_terminal_pane_id),
        SelectionAction::NoAction
    );
}

#[test]
fn source_freshness_is_carried_through_nodes_and_preview_resolution() {
    let model = build_fixture_model();

    assert_eq!(model.sessions[0].source_freshness, SourceFreshness::Runtime);
    assert_eq!(
        model.sessions[0].tabs[0].source_freshness,
        SourceFreshness::Runtime
    );
    assert_eq!(
        model.sessions[0].tabs[0].panes[0].source_freshness,
        SourceFreshness::Runtime
    );
    assert_eq!(model.sessions[1].source_freshness, SourceFreshness::Cache);

    let cached_session_preview = model.resolve_preview_target(&NodeId::Session {
        session_name: "work-current".to_owned(),
    });
    assert_eq!(
        cached_session_preview,
        PreviewTarget::SessionSummary {
            session_name: "work-current".to_owned(),
            source_freshness: SourceFreshness::Cache,
        }
    );
}

#[test]
fn resolves_tab_and_pane_from_prior_node_id_after_tab_reorder_refresh() {
    let sessions = parse_sessions_output(SESSIONS_FIXTURE)
        .expect("sessions fixture should parse for navigation model tests");
    let tabs = parse_tabs_output(TABS_FIXTURE).expect("tabs fixture should parse for tests");
    let panes = parse_panes_output(PANES_FIXTURE).expect("panes fixture should parse for tests");

    let initial_model = NavigationModel::from_session_scoped_data(vec![SessionScopedData {
        session: sessions[0].clone(),
        tabs: tabs.clone(),
        panes: panes.clone(),
        source_freshness: SourceFreshness::Runtime,
    }]);

    let stale_tab_id = initial_model.sessions[0].tabs[0].node_id.clone();
    let stale_terminal_pane_id = initial_model.sessions[0].tabs[0]
        .panes
        .iter()
        .find(|pane| pane.pane_id == 3 && pane.pane_kind == PaneKind::Terminal)
        .expect("fixture should have a terminal pane in tab 1")
        .node_id
        .clone();

    let mut reordered_tabs = tabs;
    for tab in &mut reordered_tabs {
        match tab.tab_id {
            1 => tab.position = 1,
            2 => tab.position = 0,
            _ => {}
        }
    }

    let mut reordered_panes = panes;
    for pane in &mut reordered_panes {
        match pane.tab_id {
            1 => pane.tab_position = 1,
            2 => pane.tab_position = 0,
            _ => {}
        }
    }

    let refreshed_model = NavigationModel::from_session_scoped_data(vec![SessionScopedData {
        session: sessions[0].clone(),
        tabs: reordered_tabs,
        panes: reordered_panes,
        source_freshness: SourceFreshness::Runtime,
    }]);

    let refreshed_tab_id = refreshed_model.sessions[0]
        .tabs
        .iter()
        .find(|tab| tab.tab_id == 1)
        .expect("refreshed model should include tab 1")
        .node_id
        .clone();
    let refreshed_terminal_pane_id = refreshed_model.sessions[0]
        .tabs
        .iter()
        .find(|tab| tab.tab_id == 1)
        .expect("refreshed model should include tab 1")
        .panes
        .iter()
        .find(|pane| pane.pane_id == 3 && pane.pane_kind == PaneKind::Terminal)
        .expect("refreshed model should include pane 3 in tab 1")
        .node_id
        .clone();

    assert_eq!(stale_tab_id, refreshed_tab_id);
    assert_eq!(stale_terminal_pane_id, refreshed_terminal_pane_id);

    let mut stable_ids = HashSet::new();
    stable_ids.insert(stale_tab_id.clone());
    stable_ids.insert(stale_terminal_pane_id.clone());
    assert!(stable_ids.contains(&refreshed_tab_id));
    assert!(stable_ids.contains(&refreshed_terminal_pane_id));

    assert_eq!(
        refreshed_model.resolve_preview_target(&stale_tab_id),
        PreviewTarget::TabSummary {
            session_name: "zellijess".to_owned(),
            tab_id: 1,
            tab_position: 1,
            source_freshness: SourceFreshness::Runtime,
        }
    );
    assert_eq!(
        refreshed_model.resolve_selection_action(&stale_tab_id),
        SelectionAction::SwitchTab {
            session_name: "zellijess".to_owned(),
            tab_id: 1,
            tab_position: 1,
        }
    );

    assert_eq!(
        refreshed_model.resolve_preview_target(&stale_terminal_pane_id),
        PreviewTarget::PaneSnapshotCandidate {
            session_name: "zellijess".to_owned(),
            tab_id: 1,
            tab_position: 1,
            pane_id: 3,
            source_freshness: SourceFreshness::Runtime,
        }
    );
    assert_eq!(
        refreshed_model.resolve_selection_action(&stale_terminal_pane_id),
        SelectionAction::FocusPane {
            session_name: "zellijess".to_owned(),
            tab_id: 1,
            tab_position: 1,
            pane_id: 3,
        }
    );
}

#[test]
fn attaches_panes_to_tab_by_tab_id_when_pane_tab_position_is_stale() {
    let sessions = parse_sessions_output(SESSIONS_FIXTURE)
        .expect("sessions fixture should parse for navigation model tests");
    let tabs = parse_tabs_output(TABS_FIXTURE).expect("tabs fixture should parse for tests");
    let mut panes = parse_panes_output(PANES_FIXTURE).expect("panes fixture should parse for tests");

    for pane in &mut panes {
        if pane.tab_id == 1 {
            pane.tab_position = 777;
        }
    }

    let model = NavigationModel::from_session_scoped_data(vec![SessionScopedData {
        session: sessions[0].clone(),
        tabs,
        panes,
        source_freshness: SourceFreshness::Runtime,
    }]);

    let tab_one = model.sessions[0]
        .tabs
        .iter()
        .find(|tab| tab.tab_id == 1)
        .expect("model should include tab 1");
    assert!(tab_one
        .panes
        .iter()
        .any(|pane| pane.pane_id == 3 && pane.pane_kind == PaneKind::Terminal));
    assert!(tab_one
        .panes
        .iter()
        .any(|pane| pane.pane_id == 4 && pane.pane_kind == PaneKind::Terminal));
}

#[test]
fn filter_query_is_trimmed_and_lowercased_like_the_plain_query() {
    let model = build_fixture_model();
    let padded: Vec<NodeId> = model
        .flatten_filtered("  LOGS  ")
        .iter()
        .map(|item| item.node_id.clone())
        .collect();
    let plain: Vec<NodeId> = model
        .flatten_filtered("logs")
        .iter()
        .map(|item| item.node_id.clone())
        .collect();
    assert_eq!(padded, plain);
    assert!(!plain.is_empty());
}

#[test]
fn empty_filter_shows_every_node() {
    let model = build_fixture_model();
    assert_eq!(model.flatten_filtered("   ").len(), model.flatten_visible().len());
    assert_eq!(model.flatten_visible().len(), 8);
}
