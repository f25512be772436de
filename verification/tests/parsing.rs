use zellijess::runtime_discovery::json::{parse_json_value, Json, JsonError, JsonNumber, SchemaProblem};
use zellijess::runtime_discovery::parsing::{
    parse_panes_output, parse_session_line, parse_session_state, parse_sessions_output,
    parse_tabs_output, ParseError,
};
use zellijess::runtime_discovery::SessionState;
use zellijess::tui::demo_data::{PANES_FIXTURE, SESSIONS_FIXTURE, TABS_FIXTURE};

#[test]
fn parses_sessions_fixture() {
    let sessions = parse_sessions_output(SESSIONS_FIXTURE).expect("sessions fixture should parse");

    assert_eq!(sessions.len(), 7);
    assert_eq!(sessions[0].name, "zellijess");
    assert_eq!(sessions[0].created_age.as_deref(), Some("4m 26s ago"));
    assert_eq!(sessions[0].state, SessionState::Active);
    assert_eq!(sessions[1].name, "work-base");
    assert_eq!(sessions[1].created_age.as_deref(), Some("1h 02m ago"));
    assert_eq!(sessions[1].state, SessionState::Active);
    assert_eq!(sessions[2].state, SessionState::Exited);
    assert_eq!(sessions[3].state, SessionState::Current);
    assert_eq!(sessions[4].state, SessionState::Active);
    assert_eq!(sessions[5].state, SessionState::Unknown);
    assert_eq!(sessions[6].name, "work-no-metadata");
    assert!(sessions[6].created_age.is_none());
    assert_eq!(sessions[6].state, SessionState::Unknown);
}

#[test]
fn parses_tabs_ndjson_fallback_output() {
    let raw = r#"
{"position":1,"name":"editor","active":true,"tab_id":1}
{"position":2,"name":"logs","active":false,"tab_id":2}
"#;
    let tabs = parse_tabs_output(raw).expect("tabs ndjson should parse");

    assert_eq!(tabs.len(), 2);
    assert_eq!(tabs[0].name, "editor");
    assert_eq!(tabs[0].tab_id, 1);
    assert_eq!(tabs[1].name, "logs");
    assert_eq!(tabs[1].tab_id, 2);
}

#[test]
fn parses_panes_ndjson_fallback_output() {
    let raw = r#"
{"id":3,"tab_id":1,"tab_position":1,"tab_name":"editor"}
{"id":4,"tab_id":1,"tab_position":1,"tab_name":"editor"}
"#;
    let panes = parse_panes_output(raw).expect("panes ndjson should parse");

    assert_eq!(panes.len(), 2);
    assert_eq!(panes[0].id, 3);
    assert_eq!(panes[0].tab_name, "editor");
    assert_eq!(panes[1].id, 4);
    assert_eq!(panes[1].tab_name, "editor");
}

#[test]
fn parses_tabs_fixture() {
    let tabs = parse_tabs_output(TABS_FIXTURE).expect("tabs fixture should parse");

    assert_eq!(tabs.len(), 2);
    assert_eq!(tabs[0].tab_id, 1);
    assert_eq!(tabs[0].name, "editor");
    assert!(tabs[0].active);
    assert!(tabs[0].panes_to_hide.is_empty());
    assert_eq!(tabs[1].name, "logs");
    assert!(tabs[1].panes_to_hide.is_empty());
}

#[test]
fn parses_panes_fixture() {
    let panes = parse_panes_output(PANES_FIXTURE).expect("panes fixture should parse");

    assert_eq!(panes.len(), 2);
    assert_eq!(panes[0].id, 3);
    assert_eq!(
        panes[0].pane_cwd.as_deref(),
        Some("/workspace/sanitized/project")
    );
    assert!(panes[0].index_in_pane_group.is_none());
    assert_eq!(panes[1].id, 4);
    assert!(panes[1].pane_cwd.is_none());
    assert_eq!(panes[1].index_in_pane_group, Some(1));
}

#[test]
fn session_state_suffix_is_trimmed_and_case_insensitive() {
    assert_eq!(parse_session_state(""), SessionState::Active);
    assert_eq!(parse_session_state("  (ACTIVE) "), SessionState::Active);
    assert_eq!(parse_session_state(" (Current)"), SessionState::Current);
    assert_eq!(
        parse_session_state(" (exited - attach to resurrect)"),
        SessionState::Exited
    );
    assert_eq!(parse_session_state("(attached)"), SessionState::Unknown);
}

#[test]
fn session_line_without_closing_bracket_is_rejected() {
    match parse_session_line("work [Created 2m ago") {
        Err(ParseError::InvalidSessionLine { line }) => assert_eq!(line, "work [Created 2m ago"),
        other => panic!("unexpected result: {other:?}"),
    }
    let plain = parse_session_line("work").expect("a bare name parses");
    assert_eq!(plain.name, "work");
    assert!(plain.created_age.is_none());
    assert_eq!(plain.state, SessionState::Unknown);
}

#[test]
fn blank_listings_have_no_records() {
    assert!(parse_sessions_output("\n   \n").expect("blank parses").is_empty());
    assert!(parse_tabs_output("  \n").expect("blank parses").is_empty());
    assert!(parse_panes_output("").expect("empty parses").is_empty());
}

#[test]
fn missing_required_field_reports_the_listing_and_the_field() {
    let error = parse_tabs_output(r#"{"name":"editor","active":true,"tab_id":1}"#)
        .expect_err("a tab without position fails");
    match error {
        ParseError::InvalidJson {
            context,
            source: JsonError::Schema(schema),
        } => {
            assert_eq!(context, "list-tabs");
            assert_eq!(schema.field, "position");
            assert_eq!(schema.problem, SchemaProblem::Missing);
        }
        other => panic!("unexpected error: {other:?}"),
    }
}

#[test]
fn legacy_panes_to_hide_accepts_only_zero() {
    let ok = parse_tabs_output(r#"[{"position":0,"name":"a","active":true,"tab_id":1,"panes_to_hide":0}]"#)
        .expect("zero is the legacy empty list");
    assert!(ok[0].panes_to_hide.is_empty());

    let error = parse_tabs_output(r#"{"position":0,"name":"a","active":true,"tab_id":1,"panes_to_hide":5}"#)
        .expect_err("a non-zero legacy value fails");
    assert!(matches!(
        error,
        ParseError::InvalidJson {
            source: JsonError::Schema(schema),
            ..
        } if schema.problem == SchemaProblem::NonZeroLegacyPanesToHide(5)
    ));
    assert_eq!(
        error.message(),
        "invalid json for list-tabs: unsupported non-zero numeric panes_to_hide shape: 5"
    );
}

#[test]
fn pane_group_index_rejects_non_empty_objects() {
    let error = parse_panes_output(
        r#"{"id":1,"tab_id":1,"tab_position":0,"tab_name":"t","index_in_pane_group":{"a":1}}"#,
    )
    .expect_err("a non-empty object fails");
    assert!(matches!(
        error,
        ParseError::InvalidJson {
            context: "list-panes",
            source: JsonError::Schema(schema),
        } if schema.problem == SchemaProblem::NonEmptyPaneGroupObject
    ));
}

#[test]
fn array_document_whose_record_fails_falls_back_to_lines() {
    let error = parse_tabs_output(r#"[{"name":"editor","active":true,"tab_id":1}]"#)
        .expect_err("the only line is an array, not a tab record");
    assert!(matches!(
        error,
        ParseError::InvalidJson {
            context: "list-tabs",
            source: JsonError::Schema(_),
        }
    ));
}

#[test]
fn ndjson_line_that_is_not_json_is_a_syntax_error() {
    let error = parse_panes_output("{\"id\":1,\"tab_id\":1,\"tab_position\":0,\"tab_name\":\"t\"}\nnot json\n")
        .expect_err("the second line is not JSON");
    assert!(matches!(
        error,
        ParseError::InvalidJson {
            context: "list-panes",
            source: JsonError::Syntax(_),
        }
    ));
}

#[test]
fn tab_record_may_list_its_fields_in_order() {
    let tabs = parse_tabs_output(
        r#"[[0,"editor",true,[],false,false,false,[],null,false,null,null,null,null,null,null,7]]"#,
    )
    .expect("a record written as its fields in order parses");
    assert_eq!(tabs.len(), 1);
    assert_eq!(tabs[0].name, "editor");
    assert_eq!(tabs[0].tab_id, 7);
    assert!(!tabs[0].has_bell_notification);

    let error = parse_tabs_output(r#"[0,"editor",true]"#).expect_err("tab_id is required");
    assert!(matches!(
        error,
        ParseError::InvalidJson {
            source: JsonError::Schema(schema),
            ..
        } if schema.field == "tab_id" && schema.problem == SchemaProblem::Missing
    ));
}

#[test]
fn record_of_another_shape_fails_on_the_record() {
    let error = parse_tabs_output("5").expect_err("a number is not a tab record");
    assert!(matches!(
        error,
        ParseError::InvalidJson {
            context: "list-tabs",
            source: JsonError::Schema(schema),
        } if schema.field == "record" && schema.problem == SchemaProblem::WrongType
    ));
}

#[test]
fn pane_keeps_its_uninterpreted_members_as_json() {
    let panes = parse_panes_output(PANES_FIXTURE).expect("fixture parses");
    let cursor = panes[0]
        .cursor_coordinates_in_pane
        .clone()
        .expect("the first pane reports its cursor");
    let expected = Json::Object(vec![
        (
            "x".to_string(),
            Json::Number(JsonNumber { as_u64: Some(3), as_i64: Some(3) }),
        ),
        (
            "y".to_string(),
            Json::Number(JsonNumber { as_u64: Some(4), as_i64: Some(4) }),
        ),
    ]);
    assert_eq!(cursor, expected);
    assert_eq!(panes[0].default_fg, Some(Json::Str("#c0caf5".to_string())));
    assert_eq!(panes[0].default_bg, None);
    assert_eq!(panes[1].cursor_coordinates_in_pane, None);
}

#[test]
fn json_document_is_parsed_member_by_member() {
    let doc = parse_json_value(r#"{"b": [1, -2, "x"], "a": null}"#).expect("valid JSON");
    let expected = Json::Object(vec![
        ("a".to_string(), Json::Null),
        (
            "b".to_string(),
            Json::Array(vec![
                Json::Number(JsonNumber { as_u64: Some(1), as_i64: Some(1) }),
                Json::Number(JsonNumber { as_u64: None, as_i64: Some(-2) }),
                Json::Str("x".to_string()),
            ]),
        ),
    ]);
    assert_eq!(doc, expected);
    assert!(parse_json_value("{").is_err());
}
