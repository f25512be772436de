//! Read-only discovery of Zellij sessions, tabs and panes through the Zellij CLI.
//!
//! The commands themselves run behind [`CommandRunner`], a trait the caller implements; this
//! module builds each command, and decides from what the runner reports what the caller gets:
//! records, a pane snapshot, or the error that explains why not.

pub mod models;
pub mod parsing;
pub mod json;

pub use models::{PaneInfo, SessionInfo, SessionState, TabInfo};

use vstd::prelude::*;

use crate::runtime_discovery::json::{
    decode_defaulted_string, decode_defaulted_string_list, defaulted_string,
    defaulted_string_list, element, field_at, json_document, json_text_is_valid, member,
    record_of_text, slot,
    FieldValue, Json, JsonError, JsonRecord, SchemaError, SchemaProblem,
};
use crate::runtime_discovery::parsing::{
    parse_panes_output, parse_sessions_output, parse_tabs_output, ParseError,
};
use crate::text::{
    chars_of, concat2, concat3, contains_seq, decimal_seq, i32_to_text, join_seq, join_strs,
    lines_chars, lower_seq, lower_str, remove_all_chars, remove_all_seq, signed_decimal_seq,
    lines_seq, str_contains, str_views, views, string_from_chars, string_views, strings_as_strs, strs_to_strings,
    trim_chars, trim_seq, trim_str, u64_to_text,
};

verus! {

/// `std::io::Error`, the failure of starting or watching a process.
#[verifier::external_type_specification]
#[verifier::external_body]
pub struct ExIoError(std::io::Error);

/// The program every command runs.
pub const ZELLIJ_PROGRAM: &'static str = "zellij";

/// The commands this module runs, as a reader would type them.
pub open spec fn command_contract_spec() -> Seq<&'static str> {
    seq![
        "zellij list-sessions --no-formatting",
        "zellij --session <session> action list-tabs --json --all",
        "zellij --session <session> action list-panes --json --all",
        "zellij --session <session> action dump-screen --pane-id <id> --ansi",
        "zellij --session <session> subscribe --pane-id <id> --ansi --format json --scrollback 0",
        "zellij action list-tabs --json --all (best-effort current-context)",
        "zellij action list-panes --json --all (best-effort current-context)",
    ]
}

/// The commands this module runs, as a reader would type them.
pub fn command_contract() -> (r: Vec<&'static str>)
    ensures
        r@ == command_contract_spec(),
        r@ == seq![
            "zellij list-sessions --no-formatting",
            "zellij --session <session> action list-tabs --json --all",
            "zellij --session <session> action list-panes --json --all",
            "zellij --session <session> action dump-screen --pane-id <id> --ansi",
            "zellij --session <session> subscribe --pane-id <id> --ansi --format json --scrollback 0",
            "zellij action list-tabs --json --all (best-effort current-context)",
            "zellij action list-panes --json --all (best-effort current-context)",
        ],
{
    vec![
        "zellij list-sessions --no-formatting",
        "zellij --session <session> action list-tabs --json --all",
        "zellij --session <session> action list-panes --json --all",
        "zellij --session <session> action dump-screen --pane-id <id> --ansi",
        "zellij --session <session> subscribe --pane-id <id> --ansi --format json --scrollback 0",
        "zellij action list-tabs --json --all (best-effort current-context)",
        "zellij action list-panes --json --all (best-effort current-context)",
    ]
}

/// What a finished command printed, and how it exited (`None` when a signal ended it).
#[derive(Debug, Clone, PartialEq, Eq)]
pub struct CommandOutput {
    pub stdout: String,
    pub stderr: String,
    pub exit_code: Option<i32>,
}

/// Why a runner could not report a finished command.
#[derive(Debug)]
pub enum CommandRunnerError {
    /// The process could not be started or watched.
    Io(std::io::Error),
    /// The caller asked to stop before the command finished.
    Cancelled,
}

/// `<std::io::Error as Display>::fmt`: the text of an I/O error. It depends on the operating
/// system's message for the error, so nothing is stated of it.
#[verifier::external_body]
fn io_error_text(e: &std::io::Error) -> String {
    e.to_string()
}

/// The text `"command execution cancelled"` of a cancelled command.
pub open spec fn cancelled_text() -> Seq<char> {
    "command execution cancelled"@
}

impl CommandRunnerError {
    /// The message that explains the failure.
    pub fn message(&self) -> (r: String)
        ensures
            self is Cancelled ==> r@ == cancelled_text(),
            self is Io ==> r@.take(32) == "io error while running command: "@,
    {
        match self {
            CommandRunnerError::Io(e) => {
                let detail = io_error_text(e);
                let r = concat2("io error while running command: ", detail.as_str());
                proof {
                    reveal_strlit("io error while running command: ");
                    assert(r@.take(32) =~= "io error while running command: "@);
                }
                r
            },
            CommandRunnerError::Cancelled => "command execution cancelled".to_owned(),
        }
    }
}

/// A pane's screen: its text, or nothing worth showing.
#[derive(Debug, Clone, PartialEq, Eq)]
pub enum PaneSnapshot {
    Ready(String),
    Empty,
}

/// The records of one full discovery.
#[derive(Debug, Clone)]
pub struct ParsedRuntimeSnapshot {
    pub sessions: Vec<SessionInfo>,
    pub tabs: Vec<TabInfo>,
    pub panes: Vec<PaneInfo>,
}

/// Why a discovery step gave no result.
#[derive(Debug)]
pub enum RuntimeDiscoveryError {
    /// The runner could not run the command.
    CommandRunner(CommandRunnerError),
    /// The caller cancelled the command.
    Cancelled { command: String },
    /// The command exited with a code other than `0`.
    CommandFailed { command: String, exit_code: Option<i32>, stderr: String },
    /// The command exited with `0` but printed a prompt to name a session.
    RuntimeDiagnostic { command: String, stdout: String, stderr: String },
    /// The output could not be parsed.
    Parse(ParseError),
}

/// The reset sequence `ESC [ 0 m`.
pub open spec fn reset_all_seq() -> Seq<char> {
    seq!['\u{1b}', '[', '0', 'm']
}

/// The reset sequence `ESC [ m`.
pub open spec fn reset_short_seq() -> Seq<char> {
    seq!['\u{1b}', '[', 'm']
}

/// The text says a session must be named: ASCII-lowercased, `stdout`, a newline and `stderr`
/// mention "session", and also "session name", "specify" or "--session".
pub open spec fn session_diagnostic(stdout: Seq<char>, stderr: Seq<char>) -> bool {
    let d = lower_seq(stdout + seq!['\n'] + stderr);
    &&& contains_seq(d, "session"@)
    &&& (contains_seq(d, "session name"@) || contains_seq(d, "specify"@) || contains_seq(
        d,
        "--session"@,
    ))
}

/// The screen text shows nothing: it is blank, or blank once the reset sequences
/// `ESC[0m` and `ESC[m` are taken out.
pub open spec fn empty_snapshot(stdout: Seq<char>) -> bool {
    trim_seq(stdout).len() == 0 || trim_seq(
        remove_all_seq(remove_all_seq(stdout, reset_all_seq()), reset_short_seq()),
    ).len() == 0
}

/// `r` is the snapshot of the screen text `stdout`.
pub open spec fn snapshot_of(stdout: Seq<char>, r: PaneSnapshot) -> bool {
    if empty_snapshot(stdout) {
        r is Empty
    } else {
        r matches PaneSnapshot::Ready(s) && s@ == stdout
    }
}

/// Whether the output of a command prompts for a session name.
pub fn is_session_targeting_diagnostic(stdout: &str, stderr: &str) -> (b: bool)
    ensures
        b == session_diagnostic(stdout@, stderr@),
{
    let joined = concat3(stdout, "\n", stderr);
    proof {
        reveal_strlit("\n");
        assert(joined@ =~= stdout@ + seq!['\n'] + stderr@);
    }
    let d = lower_str(joined.as_str());
    let has_session = str_contains(d.as_str(), "session");
    let has_name = str_contains(d.as_str(), "session name");
    let has_specify = str_contains(d.as_str(), "specify");
    let has_flag = str_contains(d.as_str(), "--session");
    has_session && (has_name || has_specify || has_flag)
}

/// Whether a pane's screen text shows nothing.
pub fn is_empty_snapshot_output(stdout: &str) -> (b: bool)
    ensures
        b == empty_snapshot(stdout@),
{
    let cs = chars_of(stdout);
    if trim_chars(cs.as_slice()).len() == 0 {
        return true;
    }
    let reset_all: Vec<char> = vec!['\u{1b}', '[', '0', 'm'];
    let reset_short: Vec<char> = vec!['\u{1b}', '[', 'm'];
    assert(reset_all@ =~= reset_all_seq());
    assert(reset_short@ =~= reset_short_seq());
    let once = remove_all_chars(cs.as_slice(), reset_all.as_slice());
    let twice = remove_all_chars(once.as_slice(), reset_short.as_slice());
    trim_chars(twice.as_slice()).len() == 0
}

/// The snapshot of a pane's screen text.
pub fn snapshot_of_output(stdout: String) -> (r: PaneSnapshot)
    ensures
        snapshot_of(stdout@, r),
{
    if is_empty_snapshot_output(stdout.as_str()) {
        PaneSnapshot::Empty
    } else {
        PaneSnapshot::Ready(stdout)
    }
}

/// A command to run: its arguments after the program, and the line a reader would type.
pub struct CommandRequest {
    pub description: String,
    pub args: Vec<String>,
}

/// The line a reader would type for a command with these arguments.
pub open spec fn description_of(args: Seq<Seq<char>>) -> Seq<char> {
    join_seq(seq!["zellij"@] + args, " "@)
}

/// The arguments that name a session, or none.
pub open spec fn session_scope(session: Option<Seq<char>>) -> Seq<Seq<char>> {
    match session {
        Some(name) => seq!["--session"@, name],
        None => seq![],
    }
}

/// `zellij list-sessions --no-formatting`.
pub open spec fn list_sessions_args() -> Seq<Seq<char>> {
    seq!["list-sessions"@, "--no-formatting"@]
}

/// `zellij [--session <name>] action <action> --json --all`.
pub open spec fn listing_args(action: Seq<char>, session: Option<Seq<char>>) -> Seq<Seq<char>> {
    session_scope(session) + seq!["action"@, action, "--json"@, "--all"@]
}

/// `zellij --session <name> action dump-screen --pane-id <id> --ansi`.
pub open spec fn dump_screen_args(session: Seq<char>, pane_id: u64) -> Seq<Seq<char>> {
    session_scope(Some(session)) + seq![
        "action"@,
        "dump-screen"@,
        "--pane-id"@,
        decimal_seq(pane_id as nat),
        "--ansi"@,
    ]
}

/// `zellij --session <name> subscribe --pane-id <id> --ansi --format json --scrollback 0`.
pub open spec fn subscribe_args(session: Seq<char>, pane_id: u64) -> Seq<Seq<char>> {
    session_scope(Some(session)) + seq![
        "subscribe"@,
        "--pane-id"@,
        decimal_seq(pane_id as nat),
        "--ansi"@,
        "--format"@,
        "json"@,
        "--scrollback"@,
        "0"@,
    ]
}

/// The request that runs `zellij` with these arguments.
pub fn command_request(args: Vec<String>) -> (r: CommandRequest)
    ensures
        r.args@ == args@,
        r.description@ == description_of(string_views(args@)),
{
    let mut parts: Vec<&str> = Vec::new();
    parts.push(ZELLIJ_PROGRAM);
    let mut rest = strings_as_strs(&args);
    let ghost first = parts@;
    parts.append(&mut rest);
    proof {
        reveal_strlit("zellij");
        assert(str_views(parts@) =~= seq!["zellij"@] + string_views(args@));
    }
    let description = join_strs(parts.as_slice(), " ");
    CommandRequest { description, args }
}

/// The arguments `--session <name>` (when a session is named) followed by `tail`.
fn scoped_args(session: Option<&str>, tail: &[&str]) -> (r: Vec<String>)
    ensures
        string_views(r@) == session_scope(
            match session {
                Some(s) => Some(s@),
                None => None,
            },
        ) + str_views(tail@),
{
    let mut out: Vec<String> = Vec::new();
    match session {
        Some(name) => {
            out.push("--session".to_owned());
            out.push(name.to_owned());
        },
        None => {},
    }
    let ghost head = out@;
    let mut rest = strs_to_strings(tail);
    out.append(&mut rest);
    proof {
        assert(string_views(out@) =~= string_views(head) + str_views(tail@));
        match session {
            Some(name) => {
                assert(string_views(head) =~= seq!["--session"@, name@]);
            },
            None => {
                assert(string_views(head) =~= Seq::<Seq<char>>::empty());
            },
        }
    }
    out
}

/// The request that lists sessions.
pub fn list_sessions_request() -> (r: CommandRequest)
    ensures
        string_views(r.args@) == list_sessions_args(),
        r.description@ == description_of(list_sessions_args()),
{
    let args = scoped_args(None, &["list-sessions", "--no-formatting"]);
    proof {
        assert(session_scope(None) + str_views(seq!["list-sessions", "--no-formatting"]) =~= list_sessions_args());
    }
    command_request(args)
}

/// The request that lists the tabs (`"list-tabs"`) or panes (`"list-panes"`) of the named
/// session, or of the session the command runs in when none is named.
pub fn listing_request(action: &'static str, session: Option<&str>) -> (r: CommandRequest)
    ensures
        string_views(r.args@) == listing_args(
            action@,
            match session {
                Some(s) => Some(s@),
                None => None,
            },
        ),
        r.description@ == description_of(string_views(r.args@)),
{
    let args = scoped_args(session, &["action", action, "--json", "--all"]);
    proof {
        assert(str_views(seq!["action", action, "--json", "--all"]) =~= seq![
            "action"@,
            action@,
            "--json"@,
            "--all"@,
        ]);
    }
    command_request(args)
}

/// The request that dumps the screen of a pane of a session.
pub fn dump_screen_request(session_name: &str, pane_id: u64) -> (r: CommandRequest)
    ensures
        string_views(r.args@) == dump_screen_args(session_name@, pane_id),
        r.description@ == description_of(dump_screen_args(session_name@, pane_id)),
{
    let id_text = u64_to_text(pane_id);
    let id = id_text.as_str();
    let args = scoped_args(
        Some(session_name),
        &["action", "dump-screen", "--pane-id", id, "--ansi"],
    );
    proof {
        assert(str_views(seq!["action", "dump-screen", "--pane-id", id, "--ansi"])
            =~= seq!["action"@, "dump-screen"@, "--pane-id"@, id@, "--ansi"@]);
    }
    command_request(args)
}

/// The request that follows the screen of a pane of a session.
pub fn subscribe_request(session_name: &str, pane_id: u64) -> (r: CommandRequest)
    ensures
        string_views(r.args@) == subscribe_args(session_name@, pane_id),
        r.description@ == description_of(subscribe_args(session_name@, pane_id)),
{
    let id_text = u64_to_text(pane_id);
    let id = id_text.as_str();
    let args = scoped_args(
        Some(session_name),
        &[
            "subscribe",
            "--pane-id",
            id,
            "--ansi",
            "--format",
            "json",
            "--scrollback",
            "0",
        ],
    );
    proof {
        assert(str_views(
            seq!["subscribe", "--pane-id", id, "--ansi", "--format", "json", "--scrollback", "0"],
        ) =~= seq![
            "subscribe"@,
            "--pane-id"@,
            id@,
            "--ansi"@,
            "--format"@,
            "json"@,
            "--scrollback"@,
            "0"@,
        ]);
    }
    command_request(args)
}

/// The runner reported a command that exited with code `0`.
pub open spec fn run_succeeded(result: Result<CommandOutput, CommandRunnerError>) -> bool {
    result matches Ok(out) && out.exit_code == Some(0i32)
}

/// `e` is the error for a command (`command` as typed) that did not succeed: cancelled, not
/// run, or exited with another code (carrying that code and what it printed on stderr).
pub open spec fn run_failure(
    command: Seq<char>,
    result: Result<CommandOutput, CommandRunnerError>,
    e: RuntimeDiscoveryError,
) -> bool {
    match result {
        Err(CommandRunnerError::Cancelled) => e matches RuntimeDiscoveryError::Cancelled {
            command: c,
        } && c@ == command,
        Err(other) => e == RuntimeDiscoveryError::CommandRunner(other),
        Ok(out) => e matches RuntimeDiscoveryError::CommandFailed { command: c, exit_code, stderr }
            && c@ == command && exit_code == out.exit_code && stderr == out.stderr,
    }
}

/// `r` is the outcome of running `command`: the output when it succeeded, else its failure.
pub open spec fn checked(
    command: Seq<char>,
    result: Result<CommandOutput, CommandRunnerError>,
    r: Result<CommandOutput, RuntimeDiscoveryError>,
) -> bool {
    if run_succeeded(result) {
        r == Ok::<CommandOutput, RuntimeDiscoveryError>(result->Ok_0)
    } else {
        r matches Err(e) && run_failure(command, result, e)
    }
}

/// The output holds nothing but a prompt to name a session: blank stdout, and a session
/// diagnostic in stdout and stderr.
pub open spec fn prompt_only(out: CommandOutput) -> bool {
    trim_seq(out.stdout@).len() == 0 && session_diagnostic(out.stdout@, out.stderr@)
}

/// `e` reports the output of `command` as a runtime diagnostic.
pub open spec fn diagnostic_error(
    command: Seq<char>,
    out: CommandOutput,
    e: RuntimeDiscoveryError,
) -> bool {
    e matches RuntimeDiscoveryError::RuntimeDiagnostic { command: c, stdout, stderr } && c@
        == command && stdout == out.stdout && stderr == out.stderr
}

/// `e` is what a parse failure of the output of `command` becomes: a runtime diagnostic when
/// the output was not JSON and prompts for a session, else the parse failure itself.
pub open spec fn parse_failure(
    command: Seq<char>,
    out: CommandOutput,
    parse_error: ParseError,
    e: RuntimeDiscoveryError,
) -> bool {
    if parse_error is InvalidJson && session_diagnostic(out.stdout@, out.stderr@) {
        diagnostic_error(command, out, e)
    } else {
        e == RuntimeDiscoveryError::Parse(parse_error)
    }
}

/// `r` is what a listing gives from the successful output of `command` and the parse of its
/// stdout.
pub open spec fn listing_result<T>(
    command: Seq<char>,
    out: CommandOutput,
    parsed: Result<Vec<T>, ParseError>,
    r: Result<Vec<T>, RuntimeDiscoveryError>,
) -> bool {
    if prompt_only(out) {
        r matches Err(e) && diagnostic_error(command, out, e)
    } else {
        match parsed {
            Ok(v) => r == Ok::<Vec<T>, RuntimeDiscoveryError>(v),
            Err(pe) => r matches Err(e) && parse_failure(command, out, pe, e),
        }
    }
}

/// `r` is what a listing gives when the runner reported `result` and a successful output
/// parsed to `parsed`.
pub open spec fn listing_flow<T>(
    command: Seq<char>,
    result: Result<CommandOutput, CommandRunnerError>,
    parsed: Result<Vec<T>, ParseError>,
    r: Result<Vec<T>, RuntimeDiscoveryError>,
) -> bool {
    if run_succeeded(result) {
        listing_result(command, result->Ok_0, parsed, r)
    } else {
        r matches Err(e) && run_failure(command, result, e)
    }
}

/// The outcome of running `command`: the output of a command that exited with `0`, else the
/// error that says why not.
pub fn check_command_result(
    command: &str,
    result: Result<CommandOutput, CommandRunnerError>,
) -> (r: Result<CommandOutput, RuntimeDiscoveryError>)
    ensures
        checked(command@, result, r),
{
    match result {
        Err(CommandRunnerError::Cancelled) => Err(
            RuntimeDiscoveryError::Cancelled { command: command.to_owned() },
        ),
        Err(other) => Err(RuntimeDiscoveryError::CommandRunner(other)),
        Ok(output) => {
            if output.exit_code == Some(0i32) {
                Ok(output)
            } else {
                Err(
                    RuntimeDiscoveryError::CommandFailed {
                        command: command.to_owned(),
                        exit_code: output.exit_code,
                        stderr: output.stderr,
                    },
                )
            }
        },
    }
}

/// What a listing gives from the successful output of `command` and the parse of its stdout:
/// a prompt for a session name is a runtime diagnostic, a parse failure is classified, and
/// parsed records are returned.
pub fn conclude_listing<T>(
    command: &str,
    output: CommandOutput,
    parsed: Result<Vec<T>, ParseError>,
) -> (r: Result<Vec<T>, RuntimeDiscoveryError>)
    ensures
        listing_result(command@, output, parsed, r),
{
    let blank = trim_str(output.stdout.as_str()).unicode_len() == 0;
    if blank && is_session_targeting_diagnostic(output.stdout.as_str(), output.stderr.as_str()) {
        return Err(
            RuntimeDiscoveryError::RuntimeDiagnostic {
                command: command.to_owned(),
                stdout: output.stdout,
                stderr: output.stderr,
            },
        );
    }
    match parsed {
        Ok(v) => Ok(v),
        Err(parse_error) => Err(classify_parse_error(command, output, parse_error)),
    }
}

/// What a parse failure of the output of `command` becomes: a runtime diagnostic when the
/// output is not JSON and prompts for a session, else the parse failure itself.
pub fn classify_parse_error(
    command: &str,
    output: CommandOutput,
    parse_error: ParseError,
) -> (r: RuntimeDiscoveryError)
    ensures
        parse_failure(command@, output, parse_error, r),
{
    let is_json_failure = match parse_error {
        ParseError::InvalidJson { .. } => true,
        _ => false,
    };
    if is_json_failure && is_session_targeting_diagnostic(
        output.stdout.as_str(),
        output.stderr.as_str(),
    ) {
        RuntimeDiscoveryError::RuntimeDiagnostic {
            command: command.to_owned(),
            stdout: output.stdout,
            stderr: output.stderr,
        }
    } else {
        RuntimeDiscoveryError::Parse(parse_error)
    }
}

/// One line of `zellij subscribe --format json`: its event, and for a pane update the
/// scrollback and viewport lines.
pub struct SubscribePaneUpdateLine {
    pub event: String,
    pub scrollback: Vec<String>,
    pub viewport: Vec<String>,
}

/// The update line a record's members decode to: `event` a string and `scrollback` and
/// `viewport` lists of strings, each empty when absent.
pub fn update_line_from_fields(
    event: FieldValue,
    scrollback: FieldValue,
    viewport: FieldValue,
) -> (r: Result<SubscribePaneUpdateLine, SchemaError>)
    ensures
        r is Ok <==> (defaulted_string(event) is Ok && defaulted_string_list(scrollback) is Ok
            && defaulted_string_list(viewport) is Ok),
        r matches Ok(u) ==> defaulted_string(event) == Ok::<Seq<char>, SchemaProblem>(u.event@)
            && defaulted_string_list(scrollback) == Ok::<Seq<Seq<char>>, SchemaProblem>(
            string_views(u.scrollback@),
        ) && defaulted_string_list(viewport) == Ok::<Seq<Seq<char>>, SchemaProblem>(
            string_views(u.viewport@),
        ),
{
    let event = decode_defaulted_string(&event, "event")?;
    let scrollback = decode_defaulted_string_list(&scrollback, "scrollback")?;
    let viewport = decode_defaulted_string_list(&viewport, "viewport")?;
    Ok(SubscribePaneUpdateLine { event, scrollback, viewport })
}

/// An update record is written as an object, or as an array of at most its three fields.
pub open spec fn update_shape_ok(v: Json) -> bool {
    v is Object || (v matches Json::Array(items) && items@.len() <= 3)
}

/// `r` is the update line a JSON value decodes to: a record of the wrong shape fails on
/// `record`; else its `event`, `scrollback` and `viewport` fields decode as
/// `update_line_from_fields` says.
pub open spec fn update_record(v: Json, r: Result<SubscribePaneUpdateLine, SchemaError>) -> bool {
    if update_shape_ok(v) {
        exists|event: FieldValue, scrollback: FieldValue, viewport: FieldValue|
            #![trigger field_at(slot(v, "event"@, 0), event), field_at(slot(v, "scrollback"@, 1), scrollback), field_at(slot(v, "viewport"@, 2), viewport)]
            field_at(slot(v, "event"@, 0), event) && field_at(slot(v, "scrollback"@, 1), scrollback)
                && field_at(slot(v, "viewport"@, 2), viewport) && update_from_fields(
                event,
                scrollback,
                viewport,
                r,
            )
    } else {
        r matches Err(e) && e.field@ == "record"@ && e.problem == SchemaProblem::WrongType
    }
}

/// `r` is what the three fields of an update record decode to.
pub open spec fn update_from_fields(
    event: FieldValue,
    scrollback: FieldValue,
    viewport: FieldValue,
    r: Result<SubscribePaneUpdateLine, SchemaError>,
) -> bool {
    &&& r is Ok <==> (defaulted_string(event) is Ok && defaulted_string_list(scrollback) is Ok
        && defaulted_string_list(viewport) is Ok)
    &&& r matches Ok(u) ==> defaulted_string(event) == Ok::<Seq<char>, SchemaProblem>(u.event@)
        && defaulted_string_list(scrollback) == Ok::<Seq<Seq<char>>, SchemaProblem>(
        string_views(u.scrollback@),
    ) && defaulted_string_list(viewport) == Ok::<Seq<Seq<char>>, SchemaProblem>(
        string_views(u.viewport@),
    )
}

impl JsonRecord for SubscribePaneUpdateLine {
    open spec fn decodes(v: Json, r: Result<SubscribePaneUpdateLine, SchemaError>) -> bool {
        update_record(v, r)
    }

    fn decode_record(v: &Json) -> (r: Result<SubscribePaneUpdateLine, SchemaError>) {
        proof {
            reveal_strlit("record");
        }
        match v {
            Json::Object(_) => {
                let event = member(v, "event");
                let scrollback = member(v, "scrollback");
                let viewport = member(v, "viewport");
                let ghost (e, s, w) = (event, scrollback, viewport);
                let r = update_line_from_fields(event, scrollback, viewport);
                assert(field_at(slot(*v, "event"@, 0), e));
                assert(field_at(slot(*v, "scrollback"@, 1), s));
                assert(field_at(slot(*v, "viewport"@, 2), w));
                assert(update_from_fields(e, s, w, r));
                r
            },
            Json::Array(items) => {
                if items.len() > 3 {
                    return Err(SchemaError { field: "record", problem: SchemaProblem::WrongType });
                }
                let event = element(items, 0);
                let scrollback = element(items, 1);
                let viewport = element(items, 2);
                let ghost (e, s, w) = (event, scrollback, viewport);
                let r = update_line_from_fields(event, scrollback, viewport);
                assert(field_at(slot(*v, "event"@, 0), e));
                assert(field_at(slot(*v, "scrollback"@, 1), s));
                assert(field_at(slot(*v, "viewport"@, 2), w));
                assert(update_from_fields(e, s, w, r));
                r
            },
            _ => Err(SchemaError { field: "record", problem: SchemaProblem::WrongType }),
        }
    }
}

/// The screen text of a pane update: its scrollback lines then its viewport lines, joined by
/// newlines.
pub open spec fn update_body(u: SubscribePaneUpdateLine) -> Seq<char> {
    join_seq(string_views(u.scrollback@) + string_views(u.viewport@), "\n"@)
}

/// `r` is what an update line reports: nothing for an event other than `pane_update`, else
/// the snapshot of its screen text.
pub open spec fn update_snapshot(u: SubscribePaneUpdateLine, r: Option<PaneSnapshot>) -> bool {
    if u.event@ != "pane_update"@ {
        r is None
    } else {
        r matches Some(s) && snapshot_of(update_body(u), s)
    }
}

/// What an update line reports: `None` for an event other than `pane_update`, else the
/// snapshot of its scrollback and viewport lines.
pub fn snapshot_from_update(update: SubscribePaneUpdateLine) -> (r: Option<PaneSnapshot>)
    ensures
        update_snapshot(update, r),
{
    let ghost u = update;
    let SubscribePaneUpdateLine { event, scrollback, viewport } = update;
    if !crate::navigation_model::str_eq(event.as_str(), "pane_update") {
        return None;
    }
    let mut lines = strings_as_strs(&scrollback);
    let mut tail = strings_as_strs(&viewport);
    let ghost head = lines@;
    lines.append(&mut tail);
    assert(str_views(lines@) =~= string_views(u.scrollback@) + string_views(u.viewport@));
    let body = join_strs(lines.as_slice(), "\n");
    Some(snapshot_of_output(body))
}

/// The snapshot one line of a subscription reports: `None` for an event that is not a pane
/// update, a parse failure (under `"subscribe"`) for a line that is not an update record.
pub fn parse_subscribe_update_line(raw_line: &str) -> (r: Result<Option<PaneSnapshot>, ParseError>)
    ensures
        line_report(raw_line@, r),
{
    match record_of_text::<SubscribePaneUpdateLine>(raw_line) {
        Ok(update) => {
            let ghost u = update;
            let x = snapshot_from_update(update);
            assert(update_snapshot(u, x));
            Ok(x)
        },
        Err(source) => Err(ParseError::InvalidJson { context: "subscribe", source }),
    }
}

/// Where a runner hands the stdout lines of a streamed command, and asks whether to stop.
pub trait StdoutLineSink {
    /// What stays the same in a sink while lines go into it.
    type Key;

    /// The sink can take calls.
    spec fn accepts_calls(&self) -> bool;

    /// What stays the same in the sink while lines go into it.
    spec fn key(&self) -> Self::Key;

    /// The sink can ask to stop.
    spec fn stop_possible(&self) -> bool;

    /// The lines handed to the sink so far, in order.
    spec fn taken(&self) -> Seq<Seq<char>>;

    /// Whether the command should be stopped.
    fn is_cancelled(&self) -> (b: bool)
        requires
            self.accepts_calls(),
        ensures
            b ==> self.stop_possible(),
    ;

    /// One stdout line, without its line ending.
    fn on_stdout_line(&mut self, line: &str)
        requires
            old(self).accepts_calls(),
        ensures
            final(self).accepts_calls(),
            final(self).key() == old(self).key(),
            final(self).taken() == old(self).taken().push(line@),
    ;
}

/// Runs commands for the discovery; the caller implements it (over processes, or over
/// recorded output).
pub trait CommandRunner {
    /// `r` is a result that running `program` with `args` to completion can give; a runner
    /// that does not say admits any result.
    open spec fn runs(
        &self,
        program: Seq<char>,
        args: Seq<Seq<char>>,
        r: Result<CommandOutput, CommandRunnerError>,
    ) -> bool {
        true
    }

    /// Runs `program` with `args` to completion.
    fn run(&self, program: &str, args: &[&str]) -> (r: Result<CommandOutput, CommandRunnerError>)
        ensures
            self.runs(program@, str_views(args@), r),
    ;

    /// Runs `program` with `args` unless `is_cancelled` says to stop; stops early when it
    /// does.
    fn run_with_cancellation<C: Fn() -> bool>(
        &self,
        program: &str,
        args: &[&str],
        is_cancelled: &C,
    ) -> (r: Result<CommandOutput, CommandRunnerError>)
        requires
            is_cancelled.requires(()),
        ensures
            self.runs(program@, str_views(args@), r) || (r matches Err(
                CommandRunnerError::Cancelled,
            ) && is_cancelled.ensures((), true)),
        default_ensures
            (is_cancelled.ensures((), true) && r matches Err(CommandRunnerError::Cancelled)) || (
            is_cancelled.ensures((), false) && self.runs(program@, str_views(args@), r)),
    {
        if is_cancelled() {
            return Err(CommandRunnerError::Cancelled);
        }
        self.run(program, args)
    }

    /// Runs `program` with `args`, handing each stdout line to `sink` and stopping when it
    /// asks.
    fn run_with_cancellation_and_stdout_lines<S: StdoutLineSink>(
        &self,
        program: &str,
        args: &[&str],
        sink: &mut S,
    ) -> (r: Result<CommandOutput, CommandRunnerError>)
        requires
            old(sink).accepts_calls(),
        ensures
            final(sink).accepts_calls(),
            final(sink).key() == old(sink).key(),
            self.runs(program@, str_views(args@), r) || (r matches Err(
                CommandRunnerError::Cancelled,
            ) && final(sink).stop_possible()),
        default_ensures
            r matches Ok(out) ==> final(sink).taken() == old(sink).taken() + lines_seq(
                out.stdout@,
            ),
            r is Err ==> final(sink).taken() == old(sink).taken(),
    {
        let output = {
            let stop = || -> (b: bool)
                requires
                    sink.accepts_calls(),
                ensures
                    b ==> sink.stop_possible(),
                { sink.is_cancelled() };
            self.run_with_cancellation(program, args, &stop)?
        };
        let cs = chars_of(output.stdout.as_str());
        let lines = lines_chars(cs.as_slice());
        let ghost start = sink.taken();
        let mut i: usize = 0;
        while i < lines.len()
            invariant
                sink.accepts_calls(),
                sink.key() == old(sink).key(),
                i <= lines@.len(),
                views(lines@) == lines_seq(output.stdout@),
                sink.taken() == start + views(lines@).take(i as int),
            decreases lines.len() - i,
        {
            let line = string_from_chars(lines[i].as_slice());
            sink.on_stdout_line(line.as_str());
            assert(views(lines@).take(i + 1) =~= views(lines@).take(i as int).push(line@));
            i = i + 1;
        }
        assert(views(lines@).take(lines@.len() as int) =~= views(lines@));
        Ok(output)
    }
}

/// `o` is what one non-blank line of a subscription reports: nothing for an event other than a
/// pane update, the snapshot of an update record, or a failure (under `"subscribe"`): a syntax
/// error exactly for a line that is not one JSON document, else a schema error of its record.
pub open spec fn line_report(line: Seq<char>, o: Result<Option<PaneSnapshot>, ParseError>) -> bool {
    &&& o matches Err(e) ==> (e matches ParseError::InvalidJson { context, source } && context
        == "subscribe" && ((source is Syntax) <==> !json_text_is_valid(line)))
    &&& !json_text_is_valid(line) ==> o is Err
    &&& o matches Ok(x) ==> exists|u: SubscribePaneUpdateLine|
        #[trigger] update_record(json_document(line), Ok(u)) && update_snapshot(u, x)
    &&& o matches Err(ParseError::InvalidJson { source: JsonError::Schema(e), .. })
        ==> update_record(json_document(line), Err(e))
}

/// What a subscription did with one line it was handed.
pub enum LineStep {
    /// The line was blank, or came after a line that failed.
    Skipped,
    /// The line was parsed, with this report.
    Reported(Result<Option<PaneSnapshot>, ParseError>),
}

/// The step is a failed line.
pub open spec fn step_failed(s: LineStep) -> bool {
    s matches LineStep::Reported(Err(_))
}

/// One of the first `i` steps failed.
pub open spec fn failed_before(steps: Seq<LineStep>, i: int) -> bool {
    exists|j: int| 0 <= j < i && #[trigger] step_failed(steps[j])
}

/// `s` is what a subscription does with `line`: skips it when it is blank or a line before
/// it failed, else parses it.
pub open spec fn step_of(line: Seq<char>, failed: bool, s: LineStep) -> bool {
    if failed || trim_seq(line).len() == 0 {
        s is Skipped
    } else {
        s matches LineStep::Reported(o) && line_report(line, o)
    }
}

/// `steps` are what a subscription did with `lines`, one each, and `failure` is the first
/// failure among them, if any.
pub open spec fn lines_handled(
    lines: Seq<Seq<char>>,
    steps: Seq<LineStep>,
    failure: Option<ParseError>,
) -> bool {
    &&& steps.len() == lines.len()
    &&& forall|i: int|
        0 <= i < lines.len() ==> step_of(lines[i], failed_before(steps, i), #[trigger] steps[i])
    &&& match failure {
        None => !failed_before(steps, steps.len() as int),
        Some(e) => exists|j: int|
            0 <= j < steps.len() && #[trigger] steps[j] == LineStep::Reported(Err(e))
                && !failed_before(steps, j),
    }
}

/// The snapshots the steps hand on, in order.
pub open spec fn handed_of(steps: Seq<LineStep>) -> Seq<PaneSnapshot>
    decreases steps.len(),
{
    if steps.len() == 0 {
        seq![]
    } else {
        handed_of(steps.drop_last()) + match steps.last() {
            LineStep::Reported(Ok(Some(s))) => seq![s],
            _ => seq![],
        }
    }
}

/// Where a subscription hands its snapshots: a callback, with the record of what it was handed.
pub struct SnapshotCallback<F: FnMut(PaneSnapshot)> {
    callback: Option<F>,
    handed: Ghost<Seq<PaneSnapshot>>,
}

impl<F: FnMut(PaneSnapshot)> SnapshotCallback<F> {
    /// The snapshots handed to the callback so far, in order.
    pub closed spec fn received(&self) -> Seq<PaneSnapshot> {
        self.handed@
    }

    /// The callback is there and takes any snapshot.
    pub closed spec fn ready(&self) -> bool {
        self.callback matches Some(f) && forall|s: PaneSnapshot| f.requires((s,))
    }

    /// A callback that has been handed nothing yet.
    pub fn new(callback: F) -> (r: Self)
        requires
            forall|s: PaneSnapshot| callback.requires((s,)),
        ensures
            r.ready(),
            r.received() == Seq::<PaneSnapshot>::empty(),
    {
        SnapshotCallback { callback: Some(callback), handed: Ghost(Seq::empty()) }
    }

    /// A holder with no callback, handed nothing.
    fn idle() -> (r: Self)
        ensures
            r.received() == Seq::<PaneSnapshot>::empty(),
    {
        SnapshotCallback { callback: None, handed: Ghost(Seq::empty()) }
    }

    /// Hands one snapshot to the callback.
    fn hand(&mut self, snapshot: PaneSnapshot)
        requires
            old(self).ready(),
        ensures
            final(self).ready(),
            final(self).received() == old(self).received().push(snapshot),
    {
        let ghost s = snapshot;
        match &mut self.callback {
            Some(f) => f(snapshot),
            None => {},
        }
        self.handed = Ghost(self.handed@.push(s));
    }
}

/// The lines of a subscription: pane updates go to the callback until a line fails to parse;
/// from then on the subscription asks to stop and keeps that first failure.
pub struct SubscriptionLines<'a, C: Fn() -> bool, F: FnMut(PaneSnapshot)> {
    is_cancelled: &'a C,
    sink: SnapshotCallback<F>,
    parse_error: Option<ParseError>,
    lines: Ghost<Seq<Seq<char>>>,
    steps: Ghost<Seq<LineStep>>,
}

impl<'a, C: Fn() -> bool, F: FnMut(PaneSnapshot)> SubscriptionLines<'a, C, F> {
    /// A subscription that has seen no line yet, handing its snapshots to the callback of
    /// `sink`.
    pub fn new(is_cancelled: &'a C, sink: SnapshotCallback<F>) -> (r: Self)
        requires
            is_cancelled.requires(()),
            sink.ready(),
        ensures
            r.accepts_calls(),
            r.failure() is None,
            r.seen() == Seq::<Seq<char>>::empty(),
            r.key() == *is_cancelled,
    {
        SubscriptionLines {
            is_cancelled,
            sink: SnapshotCallback { callback: sink.callback, handed: Ghost(Seq::empty()) },
            parse_error: None,
            lines: Ghost(Seq::empty()),
            steps: Ghost(Seq::empty()),
        }
    }

    /// The first line failure, if any.
    pub closed spec fn failure(&self) -> Option<ParseError> {
        self.parse_error
    }

    /// The lines handed to the subscription so far.
    pub closed spec fn seen(&self) -> Seq<Seq<char>> {
        self.lines@
    }

    /// What the subscription did with each line.
    pub closed spec fn steps(&self) -> Seq<LineStep> {
        self.steps@
    }

    /// `b` is an answer the caller's cancellation check can give.
    pub closed spec fn cancel_answers(&self, b: bool) -> bool {
        (*self.is_cancelled).ensures((), b)
    }

    /// The first line failure, if any, and the callback, ending the subscription; the callback
    /// has been handed what the steps hand on.
    pub fn into_parts(self) -> (r: (Option<ParseError>, SnapshotCallback<F>))
        requires
            self.accepts_calls(),
        ensures
            r.0 == self.failure(),
            self.stop_possible() ==> (self.failure() is Some || self.key().ensures((), true)),
            r.1.ready(),
            lines_handled(self.seen(), self.steps(), self.failure()),
            r.1.received() == handed_of(self.steps()),
    {
        (self.parse_error, self.sink)
    }
}

impl<'a, C: Fn() -> bool, F: FnMut(PaneSnapshot)> StdoutLineSink for SubscriptionLines<'a, C, F> {
    type Key = C;

    closed spec fn key(&self) -> C {
        *self.is_cancelled
    }

    closed spec fn stop_possible(&self) -> bool {
        self.parse_error is Some || (*self.is_cancelled).ensures((), true)
    }

    closed spec fn taken(&self) -> Seq<Seq<char>> {
        self.lines@
    }

    closed spec fn accepts_calls(&self) -> bool {
        &&& self.is_cancelled.requires(())
        &&& self.sink.ready()
        &&& lines_handled(self.lines@, self.steps@, self.parse_error)
        &&& self.sink.received() == handed_of(self.steps@)
    }

    fn is_cancelled(&self) -> (b: bool)
        ensures
            self.failure() is Some ==> b,
            self.failure() is None ==> self.cancel_answers(b),
    {
        (self.is_cancelled)() || self.parse_error.is_some()
    }

    fn on_stdout_line(&mut self, line: &str)
        ensures
            final(self).seen() == old(self).seen().push(line@),
            final(self).steps().len() == old(self).steps().len() + 1,
            final(self).steps().take(old(self).steps().len() as int) == old(self).steps(),
    {
        let ghost old_steps = self.steps@;
        let ghost old_lines = self.lines@;
        let ghost n = old_steps.len() as int;
        let ghost l = line@;
        let ghost failed = self.parse_error is Some;
        proof {
            if self.parse_error is Some {
                let e = self.parse_error->Some_0;
                let j = choose|j: int|
                    0 <= j < old_steps.len() && #[trigger] old_steps[j] == LineStep::Reported(Err(e))
                        && !failed_before(old_steps, j);
                assert(step_failed(old_steps[j]));
            }
            assert(failed == failed_before(old_steps, n));
        }
        if trim_str(line).unicode_len() == 0 || self.parse_error.is_some() {
            self.lines = Ghost(self.lines@.push(l));
            self.steps = Ghost(old_steps.push(LineStep::Skipped));
            proof {
                lemma_steps_push(old_steps, LineStep::Skipped);
                let t = self.steps@;
                assert(t.take(n) =~= old_steps);
                assert forall|i: int| 0 <= i < self.lines@.len() implies step_of(
                    self.lines@[i],
                    failed_before(t, i),
                    #[trigger] t[i],
                ) by {
                    if i < n {
                        assert(t[i] == old_steps[i]);
                        assert(self.lines@[i] == old_lines[i]);
                    }
                }
                if self.parse_error is Some {
                    let e = self.parse_error->Some_0;
                    let j = choose|j: int|
                        0 <= j < old_steps.len() && #[trigger] old_steps[j] == LineStep::Reported(
                            Err(e),
                        ) && !failed_before(old_steps, j);
                    assert(t[j] == old_steps[j]);
                }
                assert(handed_of(t) =~= handed_of(old_steps));
                assert(lines_handled(self.lines@, t, self.parse_error));
            }
            return;
        }
        let report = parse_subscribe_update_line(line);
        let ghost o = report;
        match report {
            Ok(Some(snapshot)) => self.sink.hand(snapshot),
            Ok(None) => {},
            Err(error) => {
                self.parse_error = Some(error);
            },
        }
        self.lines = Ghost(self.lines@.push(l));
        self.steps = Ghost(old_steps.push(LineStep::Reported(o)));
        proof {
            lemma_steps_push(old_steps, LineStep::Reported(o));
            let t = self.steps@;
            assert(t.take(n) =~= old_steps);
            assert(trim_seq(l).len() > 0);
            assert forall|i: int| 0 <= i < self.lines@.len() implies step_of(
                self.lines@[i],
                failed_before(t, i),
                #[trigger] t[i],
            ) by {
                if i < n {
                    assert(t[i] == old_steps[i]);
                    assert(self.lines@[i] == old_lines[i]);
                }
            }
            if o is Err {
                assert(t[n] == LineStep::Reported(Err(self.parse_error->Some_0)));
            }
            assert(lines_handled(self.lines@, t, self.parse_error));
            assert(self.sink.received() =~= handed_of(t));
        }
    }
}

/// Adding a step keeps the earlier steps, and what failed before each of them, and hands on
/// what the new step hands on.
proof fn lemma_steps_push(steps: Seq<LineStep>, x: LineStep)
    ensures
        forall|i: int| 0 <= i <= steps.len() ==> failed_before(steps.push(x), i)
            == failed_before(steps, i),
        failed_before(steps.push(x), (steps.len() + 1) as int) == (failed_before(steps, steps.len() as int)
            || step_failed(x)),
        handed_of(steps.push(x)) == handed_of(steps) + match x {
            LineStep::Reported(Ok(Some(s))) => seq![s],
            _ => seq![],
        },
{
    let t = steps.push(x);
    assert(t.drop_last() =~= steps);
    assert forall|i: int| 0 <= i <= steps.len() implies failed_before(t, i) == failed_before(
        steps,
        i,
    ) by {
        if failed_before(t, i) {
            let j = choose|j: int| 0 <= j < i && #[trigger] step_failed(t[j]);
            assert(t[j] == steps[j]);
        }
        if failed_before(steps, i) {
            let j = choose|j: int| 0 <= j < i && #[trigger] step_failed(steps[j]);
            assert(t[j] == steps[j]);
        }
    }
    if step_failed(x) {
        assert(step_failed(t[steps.len() as int]));
    }
    if failed_before(t, (steps.len() + 1) as int) && !step_failed(x) {
        let j = choose|j: int| 0 <= j < steps.len() + 1 && #[trigger] step_failed(t[j]);
        assert(t[j] == steps[j]);
    }
    if failed_before(steps, steps.len() as int) {
        let j = choose|j: int| 0 <= j < steps.len() && #[trigger] step_failed(steps[j]);
        assert(step_failed(t[j]));
    }
}

/// `r` is how a subscription to `command` ends, given what the runner reported and the
/// first line that failed to parse, if any.
pub open spec fn subscription_end(
    command: Seq<char>,
    result: Result<CommandOutput, CommandRunnerError>,
    parse_error: Option<ParseError>,
    r: Result<(), RuntimeDiscoveryError>,
) -> bool {
    match result {
        Err(CommandRunnerError::Cancelled) => match parse_error {
            Some(pe) => r == Err::<(), RuntimeDiscoveryError>(RuntimeDiscoveryError::Parse(pe)),
            None => r matches Err(RuntimeDiscoveryError::Cancelled { command: c }) && c@
                == command,
        },
        Err(other) => r == Err::<(), RuntimeDiscoveryError>(
            RuntimeDiscoveryError::CommandRunner(other),
        ),
        Ok(out) => if out.exit_code != Some(0i32) {
            r matches Err(e) && run_failure(command, result, e)
        } else {
            match parse_error {
                Some(pe) => if session_diagnostic(out.stdout@, out.stderr@) {
                    r matches Err(e) && diagnostic_error(command, out, e)
                } else {
                    r == Err::<(), RuntimeDiscoveryError>(RuntimeDiscoveryError::Parse(pe))
                },
                None => if prompt_only(out) {
                    r matches Err(e) && diagnostic_error(command, out, e)
                } else {
                    r is Ok
                },
            }
        },
    }
}

/// How a subscription to `command` ends: a cancellation caused by a line failure reports
/// that failure; a failed command, a line failure or a bare session prompt is an error.
pub fn finish_subscription(
    command: &str,
    result: Result<CommandOutput, CommandRunnerError>,
    parse_error: Option<ParseError>,
) -> (r: Result<(), RuntimeDiscoveryError>)
    ensures
        subscription_end(command@, result, parse_error, r),
{
    let output = match result {
        Ok(output) => output,
        Err(CommandRunnerError::Cancelled) => {
            if let Some(error) = parse_error {
                return Err(RuntimeDiscoveryError::Parse(error));
            }
            return Err(RuntimeDiscoveryError::Cancelled { command: command.to_owned() });
        },
        Err(other) => return Err(RuntimeDiscoveryError::CommandRunner(other)),
    };
    if output.exit_code != Some(0i32) {
        return Err(
            RuntimeDiscoveryError::CommandFailed {
                command: command.to_owned(),
                exit_code: output.exit_code,
                stderr: output.stderr,
            },
        );
    }
    if let Some(error) = parse_error {
        if is_session_targeting_diagnostic(output.stdout.as_str(), output.stderr.as_str()) {
            return Err(
                RuntimeDiscoveryError::RuntimeDiagnostic {
                    command: command.to_owned(),
                    stdout: output.stdout,
                    stderr: output.stderr,
                },
            );
        }
        return Err(RuntimeDiscoveryError::Parse(error));
    }
    if trim_str(output.stdout.as_str()).unicode_len() == 0 && is_session_targeting_diagnostic(
        output.stdout.as_str(),
        output.stderr.as_str(),
    ) {
        return Err(
            RuntimeDiscoveryError::RuntimeDiagnostic {
                command: command.to_owned(),
                stdout: output.stdout,
                stderr: output.stderr,
            },
        );
    }
    Ok(())
}

/// `r` is what a session listing gives when the runner reported `result` and a successful
/// output parsed to `parsed`.
pub open spec fn sessions_flow(
    command: Seq<char>,
    result: Result<CommandOutput, CommandRunnerError>,
    parsed: Result<Vec<SessionInfo>, ParseError>,
    r: Result<Vec<SessionInfo>, RuntimeDiscoveryError>,
) -> bool {
    if run_succeeded(result) {
        match parsed {
            Ok(v) => r == Ok::<Vec<SessionInfo>, RuntimeDiscoveryError>(v),
            Err(pe) => r == Err::<Vec<SessionInfo>, RuntimeDiscoveryError>(
                RuntimeDiscoveryError::Parse(pe),
            ),
        }
    } else {
        r matches Err(e) && run_failure(command, result, e)
    }
}

/// `r` is what a screen dump gives when the runner reported `result`.
pub open spec fn dump_flow(
    command: Seq<char>,
    result: Result<CommandOutput, CommandRunnerError>,
    r: Result<PaneSnapshot, RuntimeDiscoveryError>,
) -> bool {
    if run_succeeded(result) {
        r matches Ok(s) && snapshot_of(result->Ok_0.stdout@, s)
    } else {
        r matches Err(e) && run_failure(command, result, e)
    }
}

/// `result` is what `runner` gives for Zellij run with `args`, or a cancellation that the
/// caller's check asked for.
pub open spec fn ran_unless_stopped<R: CommandRunner, C: Fn() -> bool>(
    runner: R,
    args: Seq<Seq<char>>,
    result: Result<CommandOutput, CommandRunnerError>,
    is_cancelled: C,
) -> bool {
    runner.runs(ZELLIJ_PROGRAM@, args, result) || (result matches Err(CommandRunnerError::Cancelled)
        && is_cancelled.ensures((), true))
}

/// `r` is what the session listing gives when `runner` runs `zellij list-sessions`.
pub open spec fn sessions_outcome<R: CommandRunner>(
    runner: R,
    r: Result<Vec<SessionInfo>, RuntimeDiscoveryError>,
) -> bool {
    exists|result: Result<CommandOutput, CommandRunnerError>, parsed: Result<Vec<SessionInfo>, ParseError>|
        #[trigger] sessions_flow(description_of(list_sessions_args()), result, parsed, r)
            && runner.runs(ZELLIJ_PROGRAM@, list_sessions_args(), result) && (run_succeeded(result) ==> crate::runtime_discovery::parsing::sessions_parsed(
            result->Ok_0.stdout@,
            parsed,
        ))
}

/// `r` is what a listing of `context` records gives when `runner` runs Zellij with `args`.
pub open spec fn listing_outcome<R: CommandRunner, T: JsonRecord>(
    runner: R,
    args: Seq<Seq<char>>,
    r: Result<Vec<T>, RuntimeDiscoveryError>,
    context: &'static str,
) -> bool {
    exists|result: Result<CommandOutput, CommandRunnerError>, parsed: Result<Vec<T>, ParseError>|
        #[trigger] listing_flow(description_of(args), result, parsed, r) && runner.runs(
            ZELLIJ_PROGRAM@,
            args,
            result,
        )
            && (run_succeeded(result)
            ==> crate::runtime_discovery::parsing::records_parsed(
            result->Ok_0.stdout@,
            parsed,
            context,
        ))
}

/// Never asks to stop.
fn never_cancelled() -> (b: bool)
    ensures
        !b,
{
    false
}

/// Discovery of sessions, tabs and panes over a command runner.
pub struct RuntimeDiscovery<R: CommandRunner> {
    runner: R,
}

impl<R: CommandRunner> RuntimeDiscovery<R> {
    /// The runner commands go to.
    pub closed spec fn runner_spec(&self) -> R {
        self.runner
    }

    /// A discovery that runs its commands with `runner`.
    pub fn new(runner: R) -> (r: Self)
        ensures
            r.runner_spec() == runner,
    {
        RuntimeDiscovery { runner }
    }

    /// The sessions of `zellij list-sessions --no-formatting`.
    pub fn list_sessions(&self) -> (r: Result<Vec<SessionInfo>, RuntimeDiscoveryError>)
        ensures
            sessions_outcome(self.runner_spec(), r),
    {
        let request = list_sessions_request();
        let args = strings_as_strs(&request.args);
        let checked_output = self.run_checked(request.description.clone(), args.as_slice());
        let ghost res = choose|res: Result<CommandOutput, CommandRunnerError>|
            checked(request.description@, res, checked_output) && self.runner.runs(
                ZELLIJ_PROGRAM@,
                list_sessions_args(),
                res,
            );
        let output = match checked_output {
            Ok(output) => output,
            Err(e) => {
                let r = Err(e);
                assert(sessions_flow(request.description@, res, arbitrary(), r));
                return r;
            },
        };
        let parsed = parse_sessions_output(output.stdout.as_str());
        let ghost p = parsed;
        let r = match parsed {
            Ok(v) => Ok(v),
            Err(pe) => Err(RuntimeDiscoveryError::Parse(pe)),
        };
        assert(sessions_flow(request.description@, res, p, r));
        r
    }

    /// The tabs of the session the command runs in (`zellij action list-tabs --json --all`).
    pub fn list_tabs(&self) -> (r: Result<Vec<TabInfo>, RuntimeDiscoveryError>)
        ensures
            listing_outcome(self.runner_spec(), listing_args("list-tabs"@, None), r, "list-tabs"),
    {
        let request = listing_request("list-tabs", None);
        let args = strings_as_strs(&request.args);
        self.list_tabs_with_args(request.description, args.as_slice())
    }

    /// The tabs of the named session.
    pub fn list_tabs_for_session(&self, session_name: &str) -> (r: Result<
        Vec<TabInfo>,
        RuntimeDiscoveryError,
    >)
        ensures
            listing_outcome(
                self.runner_spec(),
                listing_args("list-tabs"@, Some(session_name@)),
                r,
                "list-tabs",
            ),
    {
        let request = listing_request("list-tabs", Some(session_name));
        let args = strings_as_strs(&request.args);
        self.list_tabs_with_args(request.description, args.as_slice())
    }

    /// The panes of the session the command runs in (`zellij action list-panes --json --all`).
    pub fn list_panes(&self) -> (r: Result<Vec<PaneInfo>, RuntimeDiscoveryError>)
        ensures
            listing_outcome(self.runner_spec(), listing_args("list-panes"@, None), r, "list-panes"),
    {
        let request = listing_request("list-panes", None);
        let args = strings_as_strs(&request.args);
        self.list_panes_with_args(request.description, args.as_slice())
    }

    /// The panes of the named session.
    pub fn list_panes_for_session(&self, session_name: &str) -> (r: Result<
        Vec<PaneInfo>,
        RuntimeDiscoveryError,
    >)
        ensures
            listing_outcome(
                self.runner_spec(),
                listing_args("list-panes"@, Some(session_name@)),
                r,
                "list-panes",
            ),
    {
        let request = listing_request("list-panes", Some(session_name));
        let args = strings_as_strs(&request.args);
        self.list_panes_with_args(request.description, args.as_slice())
    }

    /// The screen of a pane of the named session.
    pub fn dump_screen_for_pane(&self, session_name: &str, pane_id: u64) -> (r: Result<
        PaneSnapshot,
        RuntimeDiscoveryError,
    >)
        ensures
            exists|result: Result<CommandOutput, CommandRunnerError>|
                #[trigger] dump_flow(
                    description_of(dump_screen_args(session_name@, pane_id)),
                    result,
                    r,
                ) && self.runner_spec().runs(
                    ZELLIJ_PROGRAM@,
                    dump_screen_args(session_name@, pane_id),
                    result,
                ),
    {
        self.dump_screen_for_pane_with_cancel(session_name, pane_id, never_cancelled)
    }

    /// The screen of a pane of the named session, unless `is_cancelled` stops the command.
    pub fn dump_screen_for_pane_with_cancel<F: Fn() -> bool>(
        &self,
        session_name: &str,
        pane_id: u64,
        is_cancelled: F,
    ) -> (r: Result<PaneSnapshot, RuntimeDiscoveryError>)
        requires
            is_cancelled.requires(()),
        ensures
            exists|result: Result<CommandOutput, CommandRunnerError>|
                #[trigger] dump_flow(
                    description_of(dump_screen_args(session_name@, pane_id)),
                    result,
                    r,
                ) && ran_unless_stopped(
                    self.runner_spec(),
                    dump_screen_args(session_name@, pane_id),
                    result,
                    is_cancelled,
                ),
    {
        let request = dump_screen_request(session_name, pane_id);
        let args = strings_as_strs(&request.args);
        let checked_output = self.run_checked_with_cancel(
            request.description.clone(),
            args.as_slice(),
            &is_cancelled,
        );
        let ghost res = choose|res: Result<CommandOutput, CommandRunnerError>|
            checked(request.description@, res, checked_output) && ran_unless_stopped(
                self.runner,
                dump_screen_args(session_name@, pane_id),
                res,
                &is_cancelled,
            );
        let output = match checked_output {
            Ok(output) => output,
            Err(e) => {
                let r = Err(e);
                assert(dump_flow(request.description@, res, r));
                return r;
            },
        };
        let r = Ok(snapshot_of_output(output.stdout));
        assert(dump_flow(request.description@, res, r));
        r
    }

    /// Follows the screen of a pane of the named session: each pane update goes to
    /// `on_snapshot`, until the command ends, `is_cancelled` stops it, or a line fails to
    /// parse (which stops it too).
    pub fn subscribe_pane_updates_with_cancel<F: FnMut(PaneSnapshot), C: Fn() -> bool>(
        &self,
        session_name: &str,
        pane_id: u64,
        on_snapshot: &mut SnapshotCallback<F>,
        is_cancelled: C,
    ) -> (r: Result<(), RuntimeDiscoveryError>)
        requires
            is_cancelled.requires(()),
            old(on_snapshot).ready(),
        ensures
            final(on_snapshot).ready(),
            exists|
                result: Result<CommandOutput, CommandRunnerError>,
                lines: Seq<Seq<char>>,
                steps: Seq<LineStep>,
                parse_error: Option<ParseError>,
            |
                #![trigger subscription_end(description_of(subscribe_args(session_name@, pane_id)), result, parse_error, r), lines_handled(lines, steps, parse_error)]
                subscription_end(
                    description_of(subscribe_args(session_name@, pane_id)),
                    result,
                    parse_error,
                    r,
                ) && (ran_unless_stopped(
                    self.runner_spec(),
                    subscribe_args(session_name@, pane_id),
                    result,
                    is_cancelled,
                ) || (result matches Err(CommandRunnerError::Cancelled) && parse_error is Some))
                    && lines_handled(lines, steps, parse_error) && final(on_snapshot).received()
                    == old(on_snapshot).received() + handed_of(steps),
    {
        let request = subscribe_request(session_name, pane_id);
        let args = strings_as_strs(&request.args);
        let mut sink = SnapshotCallback::idle();
        std::mem::swap(&mut sink, on_snapshot);
        let ghost before = sink.received();
        let mut lines = SubscriptionLines::new(&is_cancelled, sink);
        let result = self.runner.run_with_cancellation_and_stdout_lines(
            ZELLIJ_PROGRAM,
            args.as_slice(),
            &mut lines,
        );
        let ghost res = result;
        let ghost seen = lines.seen();
        let ghost steps = lines.steps();
        let (parse_error, sink) = lines.into_parts();
        *on_snapshot = SnapshotCallback {
            callback: sink.callback,
            handed: Ghost(before + sink.handed@),
        };
        let ghost pe = parse_error;
        let r = finish_subscription(request.description.as_str(), result, parse_error);
        assert(subscription_end(request.description@, res, pe, r) && (ran_unless_stopped(
            self.runner,
            subscribe_args(session_name@, pane_id),
            res,
            is_cancelled,
        ) || (res matches Err(CommandRunnerError::Cancelled) && pe is Some)) && lines_handled(
            seen,
            steps,
            pe,
        ));
        r
    }

    /// The tabs a listing command reports.
    fn list_tabs_with_args(&self, command_description: String, args: &[&str]) -> (r: Result<
        Vec<TabInfo>,
        RuntimeDiscoveryError,
    >)
        requires
            command_description@ == description_of(str_views(args@)),
        ensures
            listing_outcome(self.runner, str_views(args@), r, "list-tabs"),
    {
        let checked_output = self.run_checked(command_description.clone(), args);
        let ghost res = choose|res: Result<CommandOutput, CommandRunnerError>|
            checked(command_description@, res, checked_output) && self.runner.runs(
                ZELLIJ_PROGRAM@,
                str_views(args@),
                res,
            );
        let output = match checked_output {
            Ok(output) => output,
            Err(e) => {
                let r = Err(e);
                assert(listing_flow(command_description@, res, arbitrary::<Result<Vec<TabInfo>, ParseError>>(), r));
                return r;
            },
        };
        let parsed = parse_tabs_output(output.stdout.as_str());
        let ghost p = parsed;
        let ghost out = output;
        let r = conclude_listing(command_description.as_str(), output, parsed);
        assert(listing_flow(command_description@, res, p, r));
        assert(crate::runtime_discovery::parsing::records_parsed(out.stdout@, p, "list-tabs"));
        r
    }

    /// The panes a listing command reports.
    fn list_panes_with_args(&self, command_description: String, args: &[&str]) -> (r: Result<
        Vec<PaneInfo>,
        RuntimeDiscoveryError,
    >)
        requires
            command_description@ == description_of(str_views(args@)),
        ensures
            listing_outcome(self.runner, str_views(args@), r, "list-panes"),
    {
        let checked_output = self.run_checked(command_description.clone(), args);
        let ghost res = choose|res: Result<CommandOutput, CommandRunnerError>|
            checked(command_description@, res, checked_output) && self.runner.runs(
                ZELLIJ_PROGRAM@,
                str_views(args@),
                res,
            );
        let output = match checked_output {
            Ok(output) => output,
            Err(e) => {
                let r = Err(e);
                assert(listing_flow(command_description@, res, arbitrary::<Result<Vec<PaneInfo>, ParseError>>(), r));
                return r;
            },
        };
        let parsed = parse_panes_output(output.stdout.as_str());
        let ghost p = parsed;
        let ghost out = output;
        let r = conclude_listing(command_description.as_str(), output, parsed);
        assert(listing_flow(command_description@, res, p, r));
        assert(crate::runtime_discovery::parsing::records_parsed(out.stdout@, p, "list-panes"));
        r
    }

    /// Runs a command to completion and checks that it exited with `0`.
    fn run_checked(&self, command_description: String, args: &[&str]) -> (r: Result<
        CommandOutput,
        RuntimeDiscoveryError,
    >)
        ensures
            exists|result: Result<CommandOutput, CommandRunnerError>|
                #[trigger] checked(command_description@, result, r) && self.runner.runs(
                    ZELLIJ_PROGRAM@,
                    str_views(args@),
                    result,
                ),
    {
        self.run_checked_with_cancel(command_description, args, &never_cancelled)
    }

    /// Runs a command unless `is_cancelled` stops it, and checks that it exited with `0`.
    fn run_checked_with_cancel<C: Fn() -> bool>(
        &self,
        command_description: String,
        args: &[&str],
        is_cancelled: &C,
    ) -> (r: Result<CommandOutput, RuntimeDiscoveryError>)
        requires
            is_cancelled.requires(()),
        ensures
            exists|result: Result<CommandOutput, CommandRunnerError>|
                #[trigger] checked(command_description@, result, r) && ran_unless_stopped(
                    self.runner,
                    str_views(args@),
                    result,
                    is_cancelled,
                ),
    {
        let result = self.runner.run_with_cancellation(ZELLIJ_PROGRAM, args, is_cancelled);
        let ghost res = result;
        let r = check_command_result(command_description.as_str(), result);
        assert(checked(command_description@, res, r) && ran_unless_stopped(
            self.runner,
            str_views(args@),
            res,
            is_cancelled,
        ));
        r
    }
}

/// `r` is the snapshot of three listings: the first listing that failed to parse, in the
/// order sessions, tabs, panes, fails the whole snapshot.
pub open spec fn snapshot_parsed(
    sessions: Result<Vec<SessionInfo>, ParseError>,
    tabs: Result<Vec<TabInfo>, ParseError>,
    panes: Result<Vec<PaneInfo>, ParseError>,
    r: Result<ParsedRuntimeSnapshot, RuntimeDiscoveryError>,
) -> bool {
    match (sessions, tabs, panes) {
        (Err(e), _, _) => r == Err::<ParsedRuntimeSnapshot, RuntimeDiscoveryError>(
            RuntimeDiscoveryError::Parse(e),
        ),
        (Ok(_), Err(e), _) => r == Err::<ParsedRuntimeSnapshot, RuntimeDiscoveryError>(
            RuntimeDiscoveryError::Parse(e),
        ),
        (Ok(_), Ok(_), Err(e)) => r == Err::<ParsedRuntimeSnapshot, RuntimeDiscoveryError>(
            RuntimeDiscoveryError::Parse(e),
        ),
        (Ok(s), Ok(t), Ok(p)) => r == Ok::<ParsedRuntimeSnapshot, RuntimeDiscoveryError>(
            ParsedRuntimeSnapshot { sessions: s, tabs: t, panes: p },
        ),
    }
}

/// `r` is what the three listings of one discovery parse to: each listing is parsed as its
/// kind, and the first that fails, in the order sessions, tabs, panes, fails the snapshot.
pub open spec fn snapshot_outcome(
    sessions_raw: Seq<char>,
    tabs_raw: Seq<char>,
    panes_raw: Seq<char>,
    r: Result<ParsedRuntimeSnapshot, RuntimeDiscoveryError>,
) -> bool {
    exists|
        sessions: Result<Vec<SessionInfo>, ParseError>,
        tabs: Result<Vec<TabInfo>, ParseError>,
        panes: Result<Vec<PaneInfo>, ParseError>,
    |
        #[trigger] snapshot_parsed(sessions, tabs, panes, r)
            && crate::runtime_discovery::parsing::sessions_parsed(sessions_raw, sessions)
            && (sessions is Ok ==> crate::runtime_discovery::parsing::records_parsed(
            tabs_raw,
            tabs,
            "list-tabs",
        )) && (sessions is Ok && tabs is Ok ==> crate::runtime_discovery::parsing::records_parsed(
            panes_raw,
            panes,
            "list-panes",
        ))
}

/// The records of the three listings of one discovery.
pub fn parse_runtime_snapshot(sessions_raw: &str, tabs_raw: &str, panes_raw: &str) -> (r: Result<
    ParsedRuntimeSnapshot,
    RuntimeDiscoveryError,
>)
    ensures
        snapshot_outcome(sessions_raw@, tabs_raw@, panes_raw@, r),
{
    let sessions = parse_sessions_output(sessions_raw);
    let ghost s0 = sessions;
    let sessions = match sessions {
        Ok(v) => v,
        Err(e) => {
            let r = Err(RuntimeDiscoveryError::Parse(e));
            assert(snapshot_parsed(s0, arbitrary(), arbitrary(), r));
            return r;
        },
    };
    let tabs = parse_tabs_output(tabs_raw);
    let ghost t0 = tabs;
    let tabs = match tabs {
        Ok(v) => v,
        Err(e) => {
            let r = Err(RuntimeDiscoveryError::Parse(e));
            assert(snapshot_parsed(s0, t0, arbitrary(), r));
            return r;
        },
    };
    let panes = parse_panes_output(panes_raw);
    let ghost p0 = panes;
    let panes = match panes {
        Ok(v) => v,
        Err(e) => {
            let r = Err(RuntimeDiscoveryError::Parse(e));
            assert(snapshot_parsed(s0, t0, p0, r));
            return r;
        },
    };
    let r = Ok(ParsedRuntimeSnapshot { sessions, tabs, panes });
    assert(snapshot_parsed(s0, t0, p0, r));
    r
}

/// How an exit code reads in messages: `Some(<code>)`, or `None` when a signal ended the
/// command.
pub open spec fn exit_code_text(code: Option<i32>) -> Seq<char> {
    match code {
        Some(c) => "Some("@ + signed_decimal_seq(c as int) + ")"@,
        None => "None"@,
    }
}

/// The text of an exit code in messages.
pub fn exit_code_label(code: Option<i32>) -> (r: String)
    ensures
        r@ == exit_code_text(code),
{
    match code {
        Some(c) => {
            let n = i32_to_text(c);
            concat3("Some(", n.as_str(), ")")
        },
        None => "None".to_owned(),
    }
}

/// The message of a failed command: what it printed on stderr, trimmed, when it printed
/// anything.
pub open spec fn command_failed_text(
    command: Seq<char>,
    exit_code: Option<i32>,
    stderr: Seq<char>,
) -> Seq<char> {
    let head = "`"@ + command + "` failed with exit code "@ + exit_code_text(exit_code);
    if trim_seq(stderr).len() == 0 {
        head
    } else {
        head + ": "@ + trim_seq(stderr)
    }
}

/// The message of a runtime diagnostic: its trimmed stderr, else its trimmed stdout.
pub open spec fn diagnostic_text(command: Seq<char>, stdout: Seq<char>, stderr: Seq<char>) -> Seq<
    char,
> {
    let diagnostic = if trim_seq(stderr).len() == 0 {
        trim_seq(stdout)
    } else {
        trim_seq(stderr)
    };
    let head = "`"@ + command + "` returned a runtime diagnostic with exit code 0"@;
    if diagnostic.len() == 0 {
        head + "; session targeting may be required"@
    } else {
        head + ": "@ + diagnostic
    }
}

/// `m` is the message of `e`, as far as it is made of the library's own texts (the text of
/// an I/O error or of a JSON syntax error inside it comes from the outside crate).
pub open spec fn error_message(e: RuntimeDiscoveryError, m: Seq<char>) -> bool {
    &&& e matches RuntimeDiscoveryError::Cancelled { command } ==> m == "`"@ + command@
        + "` was cancelled"@
    &&& e matches RuntimeDiscoveryError::CommandFailed { command, exit_code, stderr } ==> m
        == command_failed_text(command@, exit_code, stderr@)
    &&& e matches RuntimeDiscoveryError::RuntimeDiagnostic { command, stdout, stderr } ==> m
        == diagnostic_text(command@, stdout@, stderr@)
    &&& e matches RuntimeDiscoveryError::CommandRunner(CommandRunnerError::Cancelled) ==> m
        == "command runner failed: "@ + cancelled_text()
    &&& e matches RuntimeDiscoveryError::Parse(ParseError::InvalidSessionLine { line }) ==> m
        == "failed to parse zellij output: unexpected session line format: `"@ + line@ + "`"@
    &&& e matches RuntimeDiscoveryError::Parse(
        ParseError::InvalidJson { context, source: JsonError::Schema(schema) },
    ) ==> m == "failed to parse zellij output: "@ + "invalid json for "@ + context@ + ": "@
        + crate::runtime_discovery::json::schema_text(schema)
}

impl RuntimeDiscoveryError {
    /// The message that explains the error.
    pub fn message(&self) -> (r: String)
        ensures
            error_message(*self, r@),
    {
        match self {
            RuntimeDiscoveryError::CommandRunner(error) => {
                let detail = error.message();
                concat2("command runner failed: ", detail.as_str())
            },
            RuntimeDiscoveryError::Cancelled { command } => concat3(
                "`",
                command.as_str(),
                "` was cancelled",
            ),
            RuntimeDiscoveryError::CommandFailed { command, exit_code, stderr } => {
                let code = exit_code_label(*exit_code);
                let head = concat3("`", command.as_str(), "` failed with exit code ");
                let head = concat2(head.as_str(), code.as_str());
                let trimmed = trim_str(stderr.as_str());
                if trimmed.unicode_len() == 0 {
                    head
                } else {
                    concat3(head.as_str(), ": ", trimmed.as_str())
                }
            },
            RuntimeDiscoveryError::RuntimeDiagnostic { command, stdout, stderr } => {
                let trimmed_err = trim_str(stderr.as_str());
                let trimmed_out = trim_str(stdout.as_str());
                let diagnostic = if trimmed_err.unicode_len() == 0 {
                    trimmed_out
                } else {
                    trimmed_err
                };
                let head = concat3(
                    "`",
                    command.as_str(),
                    "` returned a runtime diagnostic with exit code 0",
                );
                if diagnostic.unicode_len() == 0 {
                    concat2(head.as_str(), "; session targeting may be required")
                } else {
                    concat3(head.as_str(), ": ", diagnostic.as_str())
                }
            },
            RuntimeDiscoveryError::Parse(error) => {
                let detail = error.message();
                let r = concat2("failed to parse zellij output: ", detail.as_str());
                proof {
                    reveal_strlit("failed to parse zellij output: ");
                    reveal_strlit("unexpected session line format: `");
                    reveal_strlit("failed to parse zellij output: unexpected session line format: `");
                    if let ParseError::InvalidSessionLine { line } = error {
                        assert(r@ == "failed to parse zellij output: unexpected session line format: `"@
                            + line@ + "`"@);
                    }
                    if let ParseError::InvalidJson { context, source: JsonError::Schema(schema) } = error {
                        assert(r@ == "failed to parse zellij output: "@ + ("invalid json for "@
                            + context@ + ": "@ + crate::runtime_discovery::json::schema_text(*schema)));
                        assert(r@ =~= "failed to parse zellij output: "@ + "invalid json for "@
                            + context@ + ": "@ + crate::runtime_discovery::json::schema_text(*schema));
                    }
                }
                assert(error_message(*self, r@));
                r
            },
        }
    }
}

/// The bytes of `buffer` followed by as much of `chunk` as fits under `limit` bytes in all;
/// nothing is added to a buffer already at or over the limit.
pub open spec fn extended_up_to_limit(buffer: Seq<u8>, chunk: Seq<u8>, limit: nat) -> Seq<u8> {
    if buffer.len() >= limit {
        buffer
    } else {
        let room = (limit - buffer.len()) as nat;
        buffer + chunk.take(if chunk.len() < room { chunk.len() as int } else { room as int })
    }
}

/// Appends to `buffer` as much of `chunk` as keeps it within `limit` bytes (a buffer already
/// at or over the limit is left as it is).
pub fn extend_bytes_up_to_limit(buffer: &mut Vec<u8>, chunk: &[u8], limit: usize)
    ensures
        final(buffer)@ == extended_up_to_limit(old(buffer)@, chunk@, limit as nat),
{
    let remaining = if buffer.len() < limit {
        limit - buffer.len()
    } else {
        0
    };
    if remaining == 0 {
        return;
    }
    let bytes_to_copy = if chunk.len() < remaining {
        chunk.len()
    } else {
        remaining
    };
    let ghost before = buffer@;
    let mut i: usize = 0;
    while i < bytes_to_copy
        invariant
            i <= bytes_to_copy <= chunk@.len(),
            buffer@ == before + chunk@.take(i as int),
        decreases bytes_to_copy - i,
    {
        buffer.push(chunk[i]);
        i = i + 1;
        assert(buffer@ =~= before + chunk@.take(i as int));
    }
}

/// `s` without the `\r` and `\n` characters at its end.
pub open spec fn trim_line_end_seq(s: Seq<char>) -> Seq<char>
    decreases s.len(),
{
    if s.len() > 0 && (s.last() == '\r' || s.last() == '\n') {
        trim_line_end_seq(s.drop_last())
    } else {
        s
    }
}

/// A streamed stdout line without its line ending (any run of `\r` and `\n` at its end).
pub fn trim_line_ending(line: &str) -> (r: String)
    ensures
        r@ == trim_line_end_seq(line@),
{
    let cs = chars_of(line);
    let mut end = cs.len();
    assert(cs@.take(cs@.len() as int) =~= cs@);
    while end > 0 && (cs[end - 1] == '\r' || cs[end - 1] == '\n')
        invariant
            end <= cs@.len(),
            trim_line_end_seq(cs@) == trim_line_end_seq(cs@.take(end as int)),
        decreases end,
    {
        assert(cs@.take(end as int).drop_last() =~= cs@.take(end - 1));
        end = end - 1;
    }
    let kept = crate::text::slice_chars(cs.as_slice(), 0, end);
    assert(kept@ =~= cs@.take(end as int));
    string_from_chars(kept.as_slice())
}

/// A command that exits with any code but `0` fails a listing with its command, its exit
/// code and its stderr, whatever it printed on stdout.
pub proof fn law_failed_command_reports_exit_and_stderr<T>(
    command: Seq<char>,
    out: CommandOutput,
    parsed: Result<Vec<T>, ParseError>,
    r: Result<Vec<T>, RuntimeDiscoveryError>,
)
    requires
        out.exit_code != Some(0i32),
        listing_flow(command, Ok(out), parsed, r),
    ensures
        r matches Err(RuntimeDiscoveryError::CommandFailed { command: c, exit_code, stderr }) && c@
            == command && exit_code == out.exit_code && stderr == out.stderr,
{
}

/// A listing command that exits with `0` but prompts for a session name, with nothing on
/// stdout or with stdout that is not JSON, is a runtime diagnostic, not a parse failure.
pub proof fn law_session_prompt_is_a_diagnostic<T>(
    command: Seq<char>,
    out: CommandOutput,
    parsed: Result<Vec<T>, ParseError>,
    r: Result<Vec<T>, RuntimeDiscoveryError>,
)
    requires
        out.exit_code == Some(0i32),
        session_diagnostic(out.stdout@, out.stderr@),
        trim_seq(out.stdout@).len() == 0 || parsed matches Err(ParseError::InvalidJson { .. }),
        listing_flow(command, Ok(out), parsed, r),
    ensures
        r matches Err(e) && diagnostic_error(command, out, e),
{
}

/// A screen dump that prints only blank space and reset sequences shows an empty pane.
pub proof fn law_blank_screen_is_empty(
    command: Seq<char>,
    out: CommandOutput,
    r: Result<PaneSnapshot, RuntimeDiscoveryError>,
)
    requires
        out.exit_code == Some(0i32),
        empty_snapshot(out.stdout@),
        dump_flow(command, Ok(out), r),
    ensures
        r matches Ok(PaneSnapshot::Empty),
{
}

} // verus!
