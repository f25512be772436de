//! The text of the command-line modes: the greeting, the help, and the status report of
//! read-only discovery probes.

use vstd::prelude::*;

use crate::runtime_discovery::models::{PaneInfo, SessionInfo, TabInfo};
use crate::runtime_discovery::{
    command_contract, error_message, listing_args, listing_outcome, sessions_outcome, CommandRunner,
    RuntimeDiscovery, RuntimeDiscoveryError,
};
use crate::text::{concat2, concat3, decimal_seq, string_views, u64_to_text};

verus! {

/// How the report line of a probe begins: its label.
pub open spec fn probe_prefix(label: Seq<char>) -> Seq<char> {
    "  "@ + label + ": "@
}

/// The report line of one probe: its record count, or why it was unavailable.
pub open spec fn probe_ok_text(label: Seq<char>, count: nat) -> Seq<char> {
    "  "@ + label + ": ok ("@ + decimal_seq(count) + " records)"@
}

/// `line` is the report line of one probe: `ok (<n> records)`, or `unavailable (<error>)`
/// with the error's message.
pub open spec fn probe_text(
    label: Seq<char>,
    result: Result<usize, RuntimeDiscoveryError>,
    line: Seq<char>,
) -> bool {
    match result {
        Ok(n) => line == probe_ok_text(label, n as nat),
        Err(e) => exists|m: Seq<char>|
            #[trigger] error_message(e, m) && line == "  "@ + label + ": unavailable ("@ + m
                + ")"@,
    }
}

/// The report line of one probe: `ok (<n> records)`, or `unavailable (<error>)`.
pub fn probe_line(label: &str, result: Result<usize, RuntimeDiscoveryError>) -> (r: String)
    ensures
        probe_text(label@, result, r@),
{
    proof {
        reveal_strlit("  ");
        reveal_strlit(": ok (");
        reveal_strlit(": unavailable (");
        reveal_strlit(": ");
    }
    match result {
        Ok(count) => {
            let n = u64_to_text(count as u64);
            let head = concat3("  ", label, ": ok (");
            concat3(head.as_str(), n.as_str(), " records)")
        },
        Err(error) => {
            let detail = error.message();
            let head = concat3("  ", label, ": unavailable (");
            let r = concat3(head.as_str(), detail.as_str(), ")");
            assert(error_message(error, detail@));
            r
        },
    }
}

/// The record count of a listing, or its error.
pub open spec fn count_spec<T>(result: Result<Vec<T>, RuntimeDiscoveryError>) -> Result<
    usize,
    RuntimeDiscoveryError,
> {
    match result {
        Ok(v) => Ok(v@.len() as usize),
        Err(e) => Err(e),
    }
}

/// The record count of a listing, or its error.
fn count_of<T>(result: Result<Vec<T>, RuntimeDiscoveryError>) -> (r: Result<usize, RuntimeDiscoveryError>)
    ensures
        r == count_spec(result),
{
    match result {
        Ok(items) => Ok(items.len()),
        Err(error) => Err(error),
    }
}

/// The scoped probes are made exactly for a session listing that found a session.
pub open spec fn scoped_probes_made<A, B>(
    sessions: Result<Vec<SessionInfo>, RuntimeDiscoveryError>,
    scoped: Option<(A, B)>,
) -> bool {
    scoped is Some <==> (sessions matches Ok(v) && v@.len() > 0)
}

/// `lines` are the status report: two heading lines; the sessions probe; the tab and pane
/// probes scoped to the first session, or two lines that say why they were skipped; then the
/// unscoped tab and pane probes.
pub open spec fn status_lines_spec(
    sessions: Result<Vec<SessionInfo>, RuntimeDiscoveryError>,
    scoped: Option<(Result<usize, RuntimeDiscoveryError>, Result<usize, RuntimeDiscoveryError>)>,
    tabs: Result<usize, RuntimeDiscoveryError>,
    panes: Result<usize, RuntimeDiscoveryError>,
    lines: Seq<Seq<char>>,
) -> bool {
    &&& lines.len() == 7
    &&& lines[0] == "zellijess runtime-discovery status"@
    &&& lines[1] == "  reliable tab/pane discovery uses --session <session>"@
    &&& probe_text("list-sessions"@, count_spec(sessions), lines[2])
    &&& match sessions {
        Ok(v) => if v@.len() > 0 {
            &&& scoped matches Some((t, p))
            &&& probe_text("list-tabs --session "@ + v@[0].name@, t, lines[3])
            &&& probe_text("list-panes --session "@ + v@[0].name@, p, lines[4])
        } else {
            &&& lines[3] == "  list-tabs --session <session>: skipped (no sessions discovered)"@
            &&& lines[4] == "  list-panes --session <session>: skipped (no sessions discovered)"@
        },
        Err(_) => {
            &&& lines[3]
                == "  list-tabs --session <session>: skipped (session discovery unavailable)"@
            &&& lines[4]
                == "  list-panes --session <session>: skipped (session discovery unavailable)"@
        },
    }
    &&& probe_text("list-tabs (unscoped best-effort)"@, tabs, lines[5])
    &&& probe_text("list-panes (unscoped best-effort)"@, panes, lines[6])
}

/// The status report from the probe outcomes: the session listing, the counts of the tab and
/// pane probes scoped to its first session (made exactly when it found one), and the counts
/// of the unscoped probes.
pub fn status_lines(
    sessions: &Result<Vec<SessionInfo>, RuntimeDiscoveryError>,
    scoped: Option<(Result<usize, RuntimeDiscoveryError>, Result<usize, RuntimeDiscoveryError>)>,
    tabs: Result<usize, RuntimeDiscoveryError>,
    panes: Result<usize, RuntimeDiscoveryError>,
) -> (r: Vec<String>)
    requires
        scoped_probes_made(*sessions, scoped),
    ensures
        status_lines_spec(*sessions, scoped, tabs, panes, string_views(r@)),
{
    let ghost sc = scoped;
    let mut lines: Vec<String> = Vec::new();
    lines.push("zellijess runtime-discovery status".to_owned());
    lines.push("  reliable tab/pane discovery uses --session <session>".to_owned());
    match sessions {
        Ok(v) => {
            lines.push(probe_line("list-sessions", Ok(v.len())));
            match scoped {
                Some((t, p)) => {
                    let session_name = v[0].name.as_str();
                    let tabs_label = concat2("list-tabs --session ", session_name);
                    lines.push(probe_line(tabs_label.as_str(), t));
                    let panes_label = concat2("list-panes --session ", session_name);
                    lines.push(probe_line(panes_label.as_str(), p));
                },
                None => {
                    lines.push(
                        "  list-tabs --session <session>: skipped (no sessions discovered)".to_owned(),
                    );
                    lines.push(
                        "  list-panes --session <session>: skipped (no sessions discovered)".to_owned(),
                    );
                },
            }
        },
        Err(error) => {
            let detail = error.message();
            let line = concat3("  list-sessions: unavailable (", detail.as_str(), ")");
            proof {
                reveal_strlit("  list-sessions: unavailable (");
                reveal_strlit("  ");
                reveal_strlit("list-sessions");
                reveal_strlit(": unavailable (");
                assert(line@ == "  "@ + "list-sessions"@ + ": unavailable ("@ + detail@ + ")"@);
                assert(error_message(*error, detail@));
            }
            lines.push(line);
            lines.push(
                "  list-tabs --session <session>: skipped (session discovery unavailable)".to_owned(),
            );
            lines.push(
                "  list-panes --session <session>: skipped (session discovery unavailable)".to_owned(),
            );
        },
    }
    lines.push(probe_line("list-tabs (unscoped best-effort)", tabs));
    lines.push(probe_line("list-panes (unscoped best-effort)", panes));
    assert(string_views(lines@).len() == 7);
    lines
}

/// The counts of the scoped probes, when they were made.
pub open spec fn scoped_counts(
    scoped: Option<(Result<Vec<TabInfo>, RuntimeDiscoveryError>, Result<Vec<PaneInfo>, RuntimeDiscoveryError>)>,
) -> Option<(Result<usize, RuntimeDiscoveryError>, Result<usize, RuntimeDiscoveryError>)> {
    match scoped {
        Some((t, p)) => Some((count_spec(t), count_spec(p))),
        None => None,
    }
}

/// The listings of a status report are what the discovery gives over `runner`: the sessions;
/// the tabs and panes of the first session, listed exactly when there is one; and the tabs
/// and panes of the session the command runs in.
pub open spec fn status_probes<R: CommandRunner>(
    runner: R,
    sessions: Result<Vec<SessionInfo>, RuntimeDiscoveryError>,
    scoped: Option<(Result<Vec<TabInfo>, RuntimeDiscoveryError>, Result<Vec<PaneInfo>, RuntimeDiscoveryError>)>,
    tabs: Result<Vec<TabInfo>, RuntimeDiscoveryError>,
    panes: Result<Vec<PaneInfo>, RuntimeDiscoveryError>,
) -> bool {
    &&& sessions_outcome(runner, sessions)
    &&& scoped_probes_made(sessions, scoped)
    &&& scoped matches Some((t, p)) ==> {
        let name = sessions->Ok_0@[0].name@;
        &&& listing_outcome(runner, listing_args("list-tabs"@, Some(name)), t, "list-tabs")
        &&& listing_outcome(runner, listing_args("list-panes"@, Some(name)), p, "list-panes")
    }
    &&& listing_outcome(runner, listing_args("list-tabs"@, None), tabs, "list-tabs")
    &&& listing_outcome(runner, listing_args("list-panes"@, None), panes, "list-panes")
}

/// The status report: the sessions probe; for the first session, its scoped tab and pane
/// probes (skipped without a session); then the unscoped tab and pane probes.
pub fn status_report<R: CommandRunner>(discovery: &RuntimeDiscovery<R>) -> (r: Vec<String>)
    ensures
        exists|
            sessions: Result<Vec<SessionInfo>, RuntimeDiscoveryError>,
            scoped: Option<(Result<Vec<TabInfo>, RuntimeDiscoveryError>, Result<Vec<PaneInfo>, RuntimeDiscoveryError>)>,
            tabs: Result<Vec<TabInfo>, RuntimeDiscoveryError>,
            panes: Result<Vec<PaneInfo>, RuntimeDiscoveryError>,
        |
            #![trigger status_probes(discovery.runner_spec(), sessions, scoped, tabs, panes)]
            status_probes(discovery.runner_spec(), sessions, scoped, tabs, panes)
                && status_lines_spec(
                sessions,
                scoped_counts(scoped),
                count_spec(tabs),
                count_spec(panes),
                string_views(r@),
            ),
{
    let sessions = discovery.list_sessions();
    let ghost mut lists: Option<(Result<Vec<TabInfo>, RuntimeDiscoveryError>, Result<Vec<PaneInfo>, RuntimeDiscoveryError>)> = None;
    let mut scoped: Option<(Result<usize, RuntimeDiscoveryError>, Result<usize, RuntimeDiscoveryError>)> = None;
    if let Ok(v) = &sessions {
        if v.len() > 0 {
            let session_name = v[0].name.as_str();
            let t = discovery.list_tabs_for_session(session_name);
            let p = discovery.list_panes_for_session(session_name);
            proof {
                lists = Some((t, p));
            }
            scoped = Some((count_of(t), count_of(p)));
        }
    }
    let tabs = discovery.list_tabs();
    let panes = discovery.list_panes();
    let ghost (t1, p1) = (tabs, panes);
    assert(scoped == scoped_counts(lists));
    let r = status_lines(&sessions, scoped, count_of(tabs), count_of(panes));
    assert(status_probes(discovery.runner_spec(), sessions, lists, t1, p1));
    r
}

/// The help text: the modes, then the command contract, one command per line after `  - `.
pub open spec fn help_text() -> Seq<Seq<char>> {
    seq![
        "zellijess (M5 selected-pane near-live preview shell)"@,
        seq![],
        "commands:"@,
        "  demo     run fixture-backed static TUI shell"@,
        "  status   run read-only probes (session-scoped + current-context fallback)"@,
        "  --help   print this message"@,
        seq![],
        "runtime command contract (reliable path is session-scoped):"@,
    ] + crate::runtime_discovery::command_contract_spec().map_values(|c: &str| "  - "@ + c@)
}

/// The help text.
pub fn help_lines() -> (r: Vec<String>)
    ensures
        r@.map_values(|s: String| s@) == help_text(),
{
    let mut lines: Vec<String> = Vec::new();
    lines.push("zellijess (M5 selected-pane near-live preview shell)".to_owned());
    lines.push(String::new());
    lines.push("commands:".to_owned());
    lines.push("  demo     run fixture-backed static TUI shell".to_owned());
    lines.push("  status   run read-only probes (session-scoped + current-context fallback)".to_owned());
    lines.push("  --help   print this message".to_owned());
    lines.push(String::new());
    lines.push("runtime command contract (reliable path is session-scoped):".to_owned());
    let ghost head = lines@.map_values(|s: String| s@);
    let contract = command_contract();
    let ghost commands = contract@.map_values(|c: &str| "  - "@ + c@);
    let mut i: usize = 0;
    while i < contract.len()
        invariant
            i <= contract@.len(),
            commands == contract@.map_values(|c: &str| "  - "@ + c@),
            lines@.map_values(|s: String| s@) == head + commands.take(i as int),
        decreases contract.len() - i,
    {
        let line = concat2("  - ", contract[i]);
        let ghost before = lines@;
        lines.push(line);
        assert(lines@.map_values(|s: String| s@) =~= before.map_values(|s: String| s@).push(line@));
        assert(commands.take(i + 1) =~= commands.take(i as int).push(commands[i as int]));
        i = i + 1;
    }
    assert(commands.take(contract@.len() as int) =~= commands);
    assert(head =~= seq![
        "zellijess (M5 selected-pane near-live preview shell)"@,
        seq![],
        "commands:"@,
        "  demo     run fixture-backed static TUI shell"@,
        "  status   run read-only probes (session-scoped + current-context fallback)"@,
        "  --help   print this message"@,
        seq![],
        "runtime command contract (reliable path is session-scoped):"@,
    ]);
    lines
}

/// The greeting shown without a mode.
pub fn placeholder_lines() -> (r: Vec<&'static str>)
    ensures
        r@ == seq![
            "zellijess TUI shell (M5 selected-pane near-live preview) is ready",
            "run `zellijess demo` for fixture-backed TUI mode",
            "run `zellijess status` to probe runtime discovery commands",
        ],
{
    vec![
        "zellijess TUI shell (M5 selected-pane near-live preview) is ready",
        "run `zellijess demo` for fixture-backed TUI mode",
        "run `zellijess status` to probe runtime discovery commands",
    ]
}

} // verus!
