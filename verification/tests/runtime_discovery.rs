use std::cell::{Cell, RefCell};
use std::rc::Rc;

use zellijess::runtime_discovery::json::JsonError;
use zellijess::runtime_discovery::parsing::ParseError;
use zellijess::runtime_discovery::{
    command_contract, is_empty_snapshot_output, is_session_targeting_diagnostic,
    parse_runtime_snapshot, parse_subscribe_update_line, CommandOutput, CommandRunner,
    CommandRunnerError, PaneSnapshot, RuntimeDiscovery, RuntimeDiscoveryError, SnapshotCallback,
    StdoutLineSink,
};
use zellijess::tui::demo_data::{PANES_FIXTURE, SESSIONS_FIXTURE, TABS_FIXTURE};

type CommandCall = (String, Vec<String>);
type RecordedCalls = Rc<RefCell<Vec<CommandCall>>>;

#[derive(Clone)]
struct RecordingRunner {
    calls: RecordedCalls,
    output: CommandOutput,
}

struct ParseFailFastRunner {
    observed_cancel: Rc<Cell<bool>>,
}

impl RecordingRunner {
    fn with_output(output: CommandOutput) -> Self {
        Self {
            calls: Rc::new(RefCell::new(Vec::new())),
            output,
        }
    }

    fn calls(&self) -> Vec<CommandCall> {
        self.calls.borrow().clone()
    }
}

impl CommandRunner for RecordingRunner {
    fn run(&self, program: &str, args: &[&str]) -> Result<CommandOutput, CommandRunnerError> {
        self.calls.borrow_mut().push((
            program.to_owned(),
            args.iter().map(|arg| (*arg).to_owned()).collect(),
        ));
        Ok(self.output.clone())
    }
}

impl CommandRunner for ParseFailFastRunner {
    fn run(&self, _program: &str, _args: &[&str]) -> Result<CommandOutput, CommandRunnerError> {
        Ok(CommandOutput {
            stdout: String::new(),
            stderr: String::new(),
            exit_code: Some(0),
        })
    }

    fn run_with_cancellation_and_stdout_lines<S: StdoutLineSink>(
        &self,
        _program: &str,
        _args: &[&str],
        sink: &mut S,
    ) -> Result<CommandOutput, CommandRunnerError> {
        sink.on_stdout_line("{\"event\":");

        if sink.is_cancelled() {
            self.observed_cancel.set(true);
            return Err(CommandRunnerError::Cancelled);
        }

        Ok(CommandOutput {
            stdout: String::new(),
            stderr: String::new(),
            exit_code: Some(0),
        })
    }
}

fn ok_json_output() -> CommandOutput {
    CommandOutput {
        stdout: "[]".to_owned(),
        stderr: String::new(),
        exit_code: Some(0),
    }
}

#[test]
fn list_tabs_for_session_uses_scoped_command_args() {
    let runner = RecordingRunner::with_output(ok_json_output());
    let discovery = RuntimeDiscovery::new(runner.clone());

    let tabs = discovery
        .list_tabs_for_session("work")
        .expect("scoped list-tabs should parse");

    assert!(tabs.is_empty());
    assert_eq!(
        runner.calls(),
        vec![(
            "zellij".to_owned(),
            vec![
                "--session".to_owned(),
                "work".to_owned(),
                "action".to_owned(),
                "list-tabs".to_owned(),
                "--json".to_owned(),
                "--all".to_owned(),
            ],
        )]
    );
}

#[test]
fn list_panes_for_session_uses_scoped_command_args() {
    let runner = RecordingRunner::with_output(ok_json_output());
    let discovery = RuntimeDiscovery::new(runner.clone());

    let panes = discovery
        .list_panes_for_session("work")
        .expect("scoped list-panes should parse");

    assert!(panes.is_empty());
    assert_eq!(
        runner.calls(),
        vec![(
            "zellij".to_owned(),
            vec![
                "--session".to_owned(),
                "work".to_owned(),
                "action".to_owned(),
                "list-panes".to_owned(),
                "--json".to_owned(),
                "--all".to_owned(),
            ],
        )]
    );
}

#[test]
fn dump_screen_for_pane_uses_scoped_command_args() {
    let runner = RecordingRunner::with_output(CommandOutput {
        stdout: "pane output".to_owned(),
        stderr: String::new(),
        exit_code: Some(0),
    });
    let discovery = RuntimeDiscovery::new(runner.clone());

    let snapshot = discovery
        .dump_screen_for_pane("work", 42)
        .expect("dump-screen should run for scoped pane");

    assert_eq!(snapshot, PaneSnapshot::Ready("pane output".to_owned()));
    assert_eq!(
        runner.calls(),
        vec![(
            "zellij".to_owned(),
            vec![
                "--session".to_owned(),
                "work".to_owned(),
                "action".to_owned(),
                "dump-screen".to_owned(),
                "--pane-id".to_owned(),
                "42".to_owned(),
                "--ansi".to_owned(),
            ],
        )]
    );
}

#[test]
fn dump_screen_treats_empty_and_reset_only_output_as_empty_state() {
    let runner = RecordingRunner::with_output(CommandOutput {
        stdout: "\u{1b}[0m\n\u{1b}[m".to_owned(),
        stderr: String::new(),
        exit_code: Some(0),
    });
    let discovery = RuntimeDiscovery::new(runner);

    let snapshot = discovery
        .dump_screen_for_pane("work", 3)
        .expect("reset-only output should map to empty snapshot");

    assert_eq!(snapshot, PaneSnapshot::Empty);
}

#[test]
fn dump_screen_non_zero_exit_is_command_failed_error() {
    let runner = RecordingRunner::with_output(CommandOutput {
        stdout: String::new(),
        stderr: "pane missing".to_owned(),
        exit_code: Some(1),
    });
    let discovery = RuntimeDiscovery::new(runner);

    let error = discovery
        .dump_screen_for_pane("work", 3)
        .expect_err("non-zero exit should be surfaced as command failure");

    match error {
        RuntimeDiscoveryError::CommandFailed {
            command,
            exit_code,
            stderr,
        } => {
            assert_eq!(
                command,
                "zellij --session work action dump-screen --pane-id 3 --ansi"
            );
            assert_eq!(exit_code, Some(1));
            assert_eq!(stderr, "pane missing");
        }
        other => panic!("unexpected error variant: {other:?}"),
    }
}

#[test]
fn non_json_exit_zero_session_prompt_is_runtime_diagnostic() {
    let runner = RecordingRunner::with_output(CommandOutput {
        stdout: "Please specify a session name".to_owned(),
        stderr: "Hint: pass --session <name>".to_owned(),
        exit_code: Some(0),
    });
    let discovery = RuntimeDiscovery::new(runner);

    let error = discovery
        .list_tabs()
        .expect_err("session-targeting diagnostic should not be a parse error");

    match error {
        RuntimeDiscoveryError::RuntimeDiagnostic {
            command,
            stdout,
            stderr,
        } => {
            assert_eq!(command, "zellij action list-tabs --json --all");
            assert!(stdout.contains("session name"));
            assert!(stderr.contains("--session"));
        }
        other => panic!("unexpected error variant: {other:?}"),
    }
}

#[test]
fn stderr_only_exit_zero_session_prompt_is_runtime_diagnostic_for_tabs() {
    let runner = RecordingRunner::with_output(CommandOutput {
        stdout: String::new(),
        stderr: "Please specify a session name via --session".to_owned(),
        exit_code: Some(0),
    });
    let discovery = RuntimeDiscovery::new(runner);

    let error = discovery
        .list_tabs()
        .expect_err("stderr-only session prompt should not be parsed as empty tabs");

    match error {
        RuntimeDiscoveryError::RuntimeDiagnostic {
            command,
            stdout,
            stderr,
        } => {
            assert_eq!(command, "zellij action list-tabs --json --all");
            assert!(stdout.is_empty());
            assert!(stderr.contains("session name"));
        }
        other => panic!("unexpected error variant: {other:?}"),
    }
}

#[test]
fn stderr_only_exit_zero_session_prompt_is_runtime_diagnostic_for_panes() {
    let runner = RecordingRunner::with_output(CommandOutput {
        stdout: String::new(),
        stderr: "Please specify a session name via --session".to_owned(),
        exit_code: Some(0),
    });
    let discovery = RuntimeDiscovery::new(runner);

    let error = discovery
        .list_panes()
        .expect_err("stderr-only session prompt should not be parsed as empty panes");

    match error {
        RuntimeDiscoveryError::RuntimeDiagnostic {
            command,
            stdout,
            stderr,
        } => {
            assert_eq!(command, "zellij action list-panes --json --all");
            assert!(stdout.is_empty());
            assert!(stderr.contains("session name"));
        }
        other => panic!("unexpected error variant: {other:?}"),
    }
}

#[test]
fn dump_screen_with_cancel_maps_cancelled_runner_error() {
    let runner = RecordingRunner::with_output(CommandOutput {
        stdout: "pane output".to_owned(),
        stderr: String::new(),
        exit_code: Some(0),
    });
    let discovery = RuntimeDiscovery::new(runner.clone());

    let error = discovery
        .dump_screen_for_pane_with_cancel("work", 8, || true)
        .expect_err("cancelled dump-screen should not return a snapshot");

    match error {
        RuntimeDiscoveryError::Cancelled { command } => {
            assert_eq!(
                command,
                "zellij --session work action dump-screen --pane-id 8 --ansi"
            );
        }
        other => panic!("unexpected error variant: {other:?}"),
    }

    assert!(runner.calls().is_empty());
}

#[test]
fn parse_subscribe_update_line_joins_scrollback_and_viewport() {
    let line =
        r#"{"event":"pane_update","scrollback":["line-1"],"viewport":["line-2","line-3"]}"#;

    let parsed = parse_subscribe_update_line(line).expect("subscribe line should parse");
    assert_eq!(
        parsed,
        Some(PaneSnapshot::Ready("line-1\nline-2\nline-3".to_owned()))
    );
}

#[test]
fn parse_subscribe_update_line_maps_reset_only_content_to_empty() {
    let line = r#"{"event":"pane_update","scrollback":[],"viewport":["\u001b[0m","\u001b[m"]}"#;

    let parsed = parse_subscribe_update_line(line).expect("subscribe line should parse");
    assert_eq!(parsed, Some(PaneSnapshot::Empty));
}

#[test]
fn subscribe_pane_updates_uses_scoped_command_args_and_parses_frames() {
    let runner = RecordingRunner::with_output(CommandOutput {
        stdout: [
            "{\"event\":\"session_update\"}\n",
            "{\"event\":\"pane_update\",\"scrollback\":[],\"viewport\":[\"frame-1\"]}\n",
            "{\"event\":\"pane_update\",\"scrollback\":[\"a\"],\"viewport\":[\"b\"]}\n",
        ]
        .concat(),
        stderr: String::new(),
        exit_code: Some(0),
    });
    let discovery = RuntimeDiscovery::new(runner.clone());
    let mut snapshots = Vec::new();
    let mut on_snapshot = SnapshotCallback::new(|snapshot| snapshots.push(snapshot));

    discovery
        .subscribe_pane_updates_with_cancel("work", 9, &mut on_snapshot, || false)
        .expect("subscribe should parse pane updates");
    drop(on_snapshot);

    assert_eq!(
        snapshots,
        vec![
            PaneSnapshot::Ready("frame-1".to_owned()),
            PaneSnapshot::Ready("a\nb".to_owned())
        ]
    );
    assert_eq!(
        runner.calls(),
        vec![(
            "zellij".to_owned(),
            vec![
                "--session".to_owned(),
                "work".to_owned(),
                "subscribe".to_owned(),
                "--pane-id".to_owned(),
                "9".to_owned(),
                "--ansi".to_owned(),
                "--format".to_owned(),
                "json".to_owned(),
                "--scrollback".to_owned(),
                "0".to_owned(),
            ],
        )]
    );
}

#[test]
fn subscribe_pane_updates_non_zero_exit_is_command_failed_error() {
    let runner = RecordingRunner::with_output(CommandOutput {
        stdout: String::new(),
        stderr: "subscribe failed".to_owned(),
        exit_code: Some(1),
    });
    let discovery = RuntimeDiscovery::new(runner);

    let error = discovery
        .subscribe_pane_updates_with_cancel("work", 9, &mut SnapshotCallback::new(|_| {}), || false)
        .expect_err("non-zero subscribe exit should be surfaced");

    match error {
        RuntimeDiscoveryError::CommandFailed {
            command,
            exit_code,
            stderr,
        } => {
            assert_eq!(
                command,
                "zellij --session work subscribe --pane-id 9 --ansi --format json --scrollback 0"
            );
            assert_eq!(exit_code, Some(1));
            assert_eq!(stderr, "subscribe failed");
        }
        other => panic!("unexpected error variant: {other:?}"),
    }
}

#[test]
fn subscribe_pane_updates_parse_error_cancels_runner_and_returns_parse_error() {
    let observed_cancel = Rc::new(Cell::new(false));
    let discovery = RuntimeDiscovery::new(ParseFailFastRunner {
        observed_cancel: Rc::clone(&observed_cancel),
    });

    let error = discovery
        .subscribe_pane_updates_with_cancel("work", 9, &mut SnapshotCallback::new(|_| {}), || false)
        .expect_err("malformed subscribe frame should fail fast");

    assert!(matches!(
        error,
        RuntimeDiscoveryError::Parse(ParseError::InvalidJson { context, .. })
            if context == "subscribe"
    ));
    assert!(observed_cancel.get());
}

#[test]
fn list_sessions_runs_the_listing_command_and_parses_its_lines() {
    let runner = RecordingRunner::with_output(CommandOutput {
        stdout: SESSIONS_FIXTURE.to_owned(),
        stderr: String::new(),
        exit_code: Some(0),
    });
    let discovery = RuntimeDiscovery::new(runner.clone());

    let sessions = discovery.list_sessions().expect("sessions should parse");
    assert_eq!(sessions.len(), 7);
    assert_eq!(
        runner.calls(),
        vec![(
            "zellij".to_owned(),
            vec!["list-sessions".to_owned(), "--no-formatting".to_owned()],
        )]
    );
}

#[test]
fn list_sessions_reports_a_malformed_line_as_parse_error() {
    let runner = RecordingRunner::with_output(CommandOutput {
        stdout: "broken [Created 1m ago\n".to_owned(),
        stderr: String::new(),
        exit_code: Some(0),
    });
    let discovery = RuntimeDiscovery::new(runner);

    let error = discovery.list_sessions().expect_err("malformed line should fail");
    assert!(matches!(
        error,
        RuntimeDiscoveryError::Parse(ParseError::InvalidSessionLine { line })
            if line == "broken [Created 1m ago"
    ));
}

#[test]
fn invalid_json_without_session_prompt_is_a_parse_error() {
    let runner = RecordingRunner::with_output(CommandOutput {
        stdout: "not json".to_owned(),
        stderr: String::new(),
        exit_code: Some(0),
    });
    let discovery = RuntimeDiscovery::new(runner);

    let error = discovery.list_tabs().expect_err("non-json output should fail");
    assert!(matches!(
        error,
        RuntimeDiscoveryError::Parse(ParseError::InvalidJson {
            context: "list-tabs",
            source: JsonError::Syntax(_),
        })
    ));
}

#[test]
fn signal_terminated_command_is_command_failed_without_exit_code() {
    let runner = RecordingRunner::with_output(CommandOutput {
        stdout: String::new(),
        stderr: String::new(),
        exit_code: None,
    });
    let discovery = RuntimeDiscovery::new(runner);

    let error = discovery.list_panes().expect_err("a command without exit code failed");
    assert!(matches!(
        error,
        RuntimeDiscoveryError::CommandFailed { exit_code: None, .. }
    ));
    assert_eq!(
        error.message(),
        "`zellij action list-panes --json --all` failed with exit code None"
    );
}

#[test]
fn session_targeting_diagnostic_needs_session_and_a_prompt_word() {
    assert!(is_session_targeting_diagnostic("Please SPECIFY a Session", ""));
    assert!(is_session_targeting_diagnostic("", "no session name given"));
    assert!(is_session_targeting_diagnostic("session", "use --session"));
    assert!(!is_session_targeting_diagnostic("session ended", ""));
    assert!(!is_session_targeting_diagnostic("please specify", "a name"));
}

#[test]
fn empty_snapshot_output_ignores_blank_and_reset_sequences() {
    assert!(is_empty_snapshot_output(""));
    assert!(is_empty_snapshot_output("  \n\t"));
    assert!(is_empty_snapshot_output("\u{1b}[0m \u{1b}[m\n"));
    assert!(!is_empty_snapshot_output("\u{1b}[31mx\u{1b}[0m"));
    assert!(!is_empty_snapshot_output("\u{1b}[1m"));
}

#[test]
fn error_messages_name_the_command_and_the_cause() {
    let failed = RuntimeDiscoveryError::CommandFailed {
        command: "zellij x".to_owned(),
        exit_code: Some(-2),
        stderr: "  boom \n".to_owned(),
    };
    assert_eq!(failed.message(), "`zellij x` failed with exit code Some(-2): boom");

    let diagnostic = RuntimeDiscoveryError::RuntimeDiagnostic {
        command: "zellij y".to_owned(),
        stdout: " out ".to_owned(),
        stderr: "   ".to_owned(),
    };
    assert_eq!(
        diagnostic.message(),
        "`zellij y` returned a runtime diagnostic with exit code 0: out"
    );

    let bare = RuntimeDiscoveryError::RuntimeDiagnostic {
        command: "zellij y".to_owned(),
        stdout: String::new(),
        stderr: String::new(),
    };
    assert_eq!(
        bare.message(),
        "`zellij y` returned a runtime diagnostic with exit code 0; session targeting may be required"
    );

    let cancelled = RuntimeDiscoveryError::Cancelled {
        command: "zellij z".to_owned(),
    };
    assert_eq!(cancelled.message(), "`zellij z` was cancelled");

    let runner = RuntimeDiscoveryError::CommandRunner(CommandRunnerError::Cancelled);
    assert_eq!(
        runner.message(),
        "command runner failed: command execution cancelled"
    );
}

#[test]
fn command_contract_lists_every_command() {
    let contract = command_contract();
    assert_eq!(contract.len(), 7);
    assert_eq!(contract[0], "zellij list-sessions --no-formatting");
    assert_eq!(
        contract[4],
        "zellij --session <session> subscribe --pane-id <id> --ansi --format json --scrollback 0"
    );
}

#[test]
fn runtime_snapshot_parses_all_three_listings() {
    let parsed = parse_runtime_snapshot(SESSIONS_FIXTURE, TABS_FIXTURE, PANES_FIXTURE)
        .expect("fixtures should parse");
    assert_eq!(parsed.sessions.len(), 7);
    assert_eq!(parsed.tabs.len(), 2);
    assert_eq!(parsed.panes.len(), 2);

    let error = parse_runtime_snapshot(SESSIONS_FIXTURE, "{", PANES_FIXTURE)
        .expect_err("a broken tab listing fails the snapshot");
    assert!(matches!(
        error,
        RuntimeDiscoveryError::Parse(ParseError::InvalidJson { context: "list-tabs", .. })
    ));
}

#[test]
fn subscription_ignores_other_events_and_blank_lines() {
    let parsed = parse_subscribe_update_line(r#"{"event":"session_update","viewport":["x"]}"#)
        .expect("other events parse");
    assert_eq!(parsed, None);

    let missing = parse_subscribe_update_line(r#"{"viewport":["x"]}"#).expect("event defaults");
    assert_eq!(missing, None);

    let wrong = parse_subscribe_update_line(r#"{"event":"pane_update","viewport":[1]}"#)
        .expect_err("a non-string line fails");
    assert!(matches!(
        wrong,
        ParseError::InvalidJson {
            context: "subscribe",
            source: JsonError::Schema(_),
        }
    ));
}

#[test]
fn subscribe_update_may_list_its_fields_in_order() {
    let parsed = parse_subscribe_update_line(r#"["pane_update", [], ["x"]]"#)
        .expect("an update written as its fields in order parses");
    assert_eq!(parsed, Some(PaneSnapshot::Ready("x".to_owned())));
}

#[test]
fn subscription_hands_on_nothing_after_a_malformed_line() {
    let runner = RecordingRunner::with_output(CommandOutput {
        stdout: [
            "{\"event\":\"pane_update\",\"scrollback\":[],\"viewport\":[\"one\"]}\n",
            "{\"event\":\n",
            "{\"event\":\"pane_update\",\"scrollback\":[],\"viewport\":[\"two\"]}\n",
        ]
        .concat(),
        stderr: String::new(),
        exit_code: Some(0),
    });
    let discovery = RuntimeDiscovery::new(runner);
    let mut snapshots = Vec::new();
    let mut on_snapshot = SnapshotCallback::new(|snapshot| snapshots.push(snapshot));

    let error = discovery
        .subscribe_pane_updates_with_cancel("work", 9, &mut on_snapshot, || false)
        .expect_err("a malformed line fails the subscription");
    drop(on_snapshot);

    assert!(matches!(
        error,
        RuntimeDiscoveryError::Parse(ParseError::InvalidJson { context, .. }) if context == "subscribe"
    ));
    assert_eq!(snapshots, vec![PaneSnapshot::Ready("one".to_owned())]);
}
