use zellijess::runtime_discovery::models::{SessionInfo, SessionState};
use zellijess::runtime_discovery::RuntimeDiscoveryError;
use zellijess::status::{probe_line, status_lines};

fn cancelled(command: &str) -> RuntimeDiscoveryError {
    RuntimeDiscoveryError::Cancelled { command: command.to_owned() }
}

#[test]
fn probe_line_reports_the_count_or_the_error_message() {
    assert_eq!(probe_line("list-tabs", Ok(3)), "  list-tabs: ok (3 records)");
    assert_eq!(
        probe_line("list-tabs", Err(cancelled("zellij action list-tabs"))),
        "  list-tabs: unavailable (`zellij action list-tabs` was cancelled)"
    );
}

#[test]
fn status_lines_probe_the_first_session() {
    let sessions = Ok(vec![
        SessionInfo { name: "work".to_owned(), created_age: None, state: SessionState::Active },
        SessionInfo { name: "play".to_owned(), created_age: None, state: SessionState::Exited },
    ]);
    let lines = status_lines(&sessions, Some((Ok(2), Err(cancelled("x")))), Ok(0), Ok(5));
    assert_eq!(
        lines,
        vec![
            "zellijess runtime-discovery status".to_owned(),
            "  reliable tab/pane discovery uses --session <session>".to_owned(),
            "  list-sessions: ok (2 records)".to_owned(),
            "  list-tabs --session work: ok (2 records)".to_owned(),
            "  list-panes --session work: unavailable (`x` was cancelled)".to_owned(),
            "  list-tabs (unscoped best-effort): ok (0 records)".to_owned(),
            "  list-panes (unscoped best-effort): ok (5 records)".to_owned(),
        ]
    );
}

#[test]
fn status_lines_skip_the_scoped_probes_without_a_session() {
    let none = status_lines(&Ok(Vec::new()), None, Ok(1), Ok(1));
    assert_eq!(none[2], "  list-sessions: ok (0 records)");
    assert_eq!(none[3], "  list-tabs --session <session>: skipped (no sessions discovered)");
    assert_eq!(none[4], "  list-panes --session <session>: skipped (no sessions discovered)");

    let failed = status_lines(&Err(cancelled("zellij list-sessions")), None, Ok(1), Ok(1));
    assert_eq!(failed[2], "  list-sessions: unavailable (`zellij list-sessions` was cancelled)");
    assert_eq!(
        failed[3],
        "  list-tabs --session <session>: skipped (session discovery unavailable)"
    );
    assert_eq!(
        failed[4],
        "  list-panes --session <session>: skipped (session discovery unavailable)"
    );
}
