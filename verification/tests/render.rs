use zellijess::navigation_model::{PreviewTarget, SelectionAction, SourceFreshness};
use zellijess::tui::preview::{PaneSnapshotRequest, SnapshotPreviewState};
use zellijess::tui::render::{
    freshness_label, preview_target_lines, render_snapshot_body_lines, sanitized_error_lines,
    selection_action_summary, snapshot_body_lines_from_parse_result, status_text,
    strip_ansi_escape_sequences, StyledLine,
};
use zellijess::tui::state::InputMode;

fn line_texts(lines: &[StyledLine]) -> Vec<String> {
    lines
        .iter()
        .map(|line| line.spans.iter().map(|span| span.content.as_str()).collect::<String>())
        .collect()
}

#[test]
fn render_snapshot_body_lines_preserve_ansi_red_style_without_raw_escape() {
    let rendered = render_snapshot_body_lines("\x1b[31mred\x1b[0m");

    assert_eq!(rendered.note, None);
    assert_eq!(rendered.lines.len(), 1);
    let first_span = &rendered.lines[0].spans[0];
    assert_eq!(first_span.content.as_str(), "red");
    assert_eq!(first_span.style.fg, Some("Red".to_string()));
    assert!(!rendered
        .lines
        .iter()
        .flat_map(|line| line.spans.iter())
        .any(|span| span.content.contains('\u{1b}')));
}

#[test]
fn forced_parse_error_sanitizes_body_and_returns_non_blocking_note() {
    let rendered = snapshot_body_lines_from_parse_result(
        "\x1b[31mred\x1b[0m",
        Err("forced parse failure".to_owned()),
    );

    assert_eq!(
        rendered.note,
        Some(
            "note: ANSI parse failed; showing sanitized plain text (forced parse failure)"
                .to_owned()
        )
    );
    assert_eq!(rendered.lines, vec![StyledLine::plain("red")]);
}

#[test]
fn successful_parse_result_still_strips_raw_escape_sequences() {
    let rendered = snapshot_body_lines_from_parse_result(
        "unused when parse succeeds",
        Ok(vec![StyledLine::plain("\x1b[31mred\x1b[0m")]),
    );

    assert_eq!(rendered.note, None);
    assert_eq!(rendered.lines, vec![StyledLine::plain("red")]);
    assert!(!rendered
        .lines
        .iter()
        .flat_map(|line| line.spans.iter())
        .any(|span| span.content.contains('\u{1b}')));
}

#[test]
fn sanitized_error_lines_strip_escape_sequences() {
    let lines = sanitized_error_lines("\x1b[31mboom\x1b[0m\nnext");
    assert_eq!(lines, vec![StyledLine::plain("boom"), StyledLine::plain("next")]);

    let empty_lines = sanitized_error_lines("\x1b[0m\x1b[m");
    assert_eq!(
        empty_lines,
        vec![StyledLine::plain("(no error details available)")]
    );
}

#[test]
fn strip_removes_csi_osc_and_two_character_sequences() {
    assert_eq!(strip_ansi_escape_sequences("a\x1b[1;31mb\x1b[0mc"), "abc");
    assert_eq!(strip_ansi_escape_sequences("x\x1b]0;title\x07y"), "xy");
    assert_eq!(strip_ansi_escape_sequences("x\x1b]8;;link\x1b\\y"), "xy");
    assert_eq!(strip_ansi_escape_sequences("x\x1b(By"), "xBy");
    assert_eq!(strip_ansi_escape_sequences("tail\x1b"), "tail");
    assert_eq!(strip_ansi_escape_sequences("unterminated\x1b[12"), "unterminated");
    assert_eq!(strip_ansi_escape_sequences("plain text"), "plain text");
    let once = strip_ansi_escape_sequences("\x1b[\x1b[31mz");
    assert!(!once.contains('\u{1b}'));
    assert_eq!(strip_ansi_escape_sequences(&once), once);
}

#[test]
fn status_line_and_action_summaries_read_as_documented() {
    assert_eq!(status_text(InputMode::Navigate, 8, "", None), "NAV rows:8 filter:- pending:none");
    let action = SelectionAction::FocusPane {
        session_name: "work".to_owned(),
        tab_id: 1,
        tab_position: 2,
        pane_id: 3,
    };
    assert_eq!(selection_action_summary(&action), "focus-pane work@2:3");
    assert_eq!(
        status_text(InputMode::Filter, 0, "zz", Some(&SelectionAction::NoAction)),
        "FILTER rows:0 filter:/zz pending:no-action"
    );
    assert_eq!(
        selection_action_summary(&SelectionAction::SwitchTab {
            session_name: "s".to_owned(),
            tab_id: 4,
            tab_position: 5,
        }),
        "switch-tab s@5"
    );
    assert_eq!(freshness_label(SourceFreshness::Subscription), "subscription");
}

#[test]
fn preview_lines_describe_targets_and_states() {
    let session = preview_target_lines(
        &PreviewTarget::SessionSummary {
            session_name: "work".to_owned(),
            source_freshness: SourceFreshness::Cache,
        },
        &SnapshotPreviewState::Unavailable {
            reason: "unused".to_owned(),
        },
    );
    assert_eq!(
        line_texts(&session),
        vec![
            "Session summary",
            "session: work",
            "source: cache",
            "",
            "select a terminal pane to capture a snapshot",
        ]
    );

    let request = PaneSnapshotRequest {
        session_name: "work".to_owned(),
        tab_id: 1,
        tab_position: 0,
        pane_id: 3,
    };
    let target = PreviewTarget::PaneSnapshotCandidate {
        session_name: "work".to_owned(),
        tab_id: 1,
        tab_position: 0,
        pane_id: 3,
        source_freshness: SourceFreshness::Runtime,
    };
    let error = preview_target_lines(
        &target,
        &SnapshotPreviewState::Error {
            request: request.clone(),
            message: "\x1b[31mfailed\x1b[0m".to_owned(),
        },
    );
    assert_eq!(
        line_texts(&error),
        vec![
            "Pane snapshot (error)",
            "session: work",
            "tab: id=1, position=0",
            "pane: id=3",
            "",
            "failed",
        ]
    );

    let ready = preview_target_lines(
        &target,
        &SnapshotPreviewState::Ready {
            request,
            body: "   ".to_owned(),
        },
    );
    let texts = line_texts(&ready);
    assert_eq!(texts[5], "snapshot body:");
    assert_eq!(texts.last().map(String::as_str), Some("(snapshot was empty after trim)"));
}
