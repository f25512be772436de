//! The text the browser's panels show: escape sequences taken out of pane output and error
//! messages, the preview lines for each target and state, the row labels and the status
//! line. Drawing them is left to the caller.

use vstd::prelude::*;

use ansi_to_tui::IntoText;
use ratatui::style::Style;

use crate::navigation_model::{
    PreviewTarget, PreviewTargetView, SelectionAction, SelectionActionView, SourceFreshness,
    VisibleItem,
};
use crate::tui::preview::{PaneSnapshotRequest, PaneSnapshotRequestView, SnapshotPreviewState, SnapshotPreviewStateView};
use crate::tui::state::InputMode;
use crate::text::{decimal_seq, u64_to_text, chars_of, concat2, concat3, lines_chars, lines_seq, string_from_chars, trim_seq, trim_str, views};
use crate::runtime_discovery::json::opt_view;

verus! {

/// The escape character that opens a terminal control sequence.
pub open spec fn esc() -> char {
    '\u{1b}'
}

/// A character that ends a control sequence introduced by `ESC [` (`'@'` to `'~'`).
pub open spec fn is_csi_final(c: char) -> bool {
    0x40 <= (c as u32) && (c as u32) <= 0x7e
}

/// How many characters after `ESC [` a control sequence takes: up to and including its final
/// character, or all that are left.
pub open spec fn csi_len(t: Seq<char>) -> nat
    decreases t.len(),
{
    if t.len() == 0 {
        0
    } else if is_csi_final(t[0]) {
        1
    } else {
        1 + csi_len(t.skip(1))
    }
}

/// How many characters after `ESC ]` an operating system command takes: up to and including
/// its terminator (BEL, or `ESC \`), or all that are left.
pub open spec fn osc_len(t: Seq<char>) -> nat
    decreases t.len(),
{
    if t.len() == 0 {
        0
    } else if t[0] == '\u{07}' {
        1
    } else if t[0] == esc() && t.len() > 1 && t[1] == '\\' {
        2
    } else {
        1 + osc_len(t.skip(1))
    }
}

/// A control sequence takes no more than what is left.
pub proof fn lemma_csi_len(t: Seq<char>)
    ensures
        csi_len(t) <= t.len(),
    decreases t.len(),
{
    if t.len() > 0 && !is_csi_final(t[0]) {
        lemma_csi_len(t.skip(1));
    }
}

/// An operating system command takes no more than what is left.
pub proof fn lemma_osc_len(t: Seq<char>)
    ensures
        osc_len(t) <= t.len(),
    decreases t.len(),
{
    if t.len() > 0 && t[0] != '\u{07}' && !(t[0] == esc() && t.len() > 1 && t[1] == '\\') {
        lemma_osc_len(t.skip(1));
    }
}

/// `s` with its terminal escape sequences taken out: `ESC [` sequences up to their final
/// character, `ESC ]` commands up to their terminator, and any other `ESC` with the character
/// after it; an `ESC` at the very end is dropped.
pub open spec fn strip_ansi_spec(s: Seq<char>) -> Seq<char>
    decreases s.len(),
{
    if s.len() == 0 {
        seq![]
    } else if s[0] != esc() {
        seq![s[0]] + strip_ansi_spec(s.skip(1))
    } else if s.len() == 1 {
        seq![]
    } else if s[1] == '[' {
        let rest = s.skip(2);
        proof {
            lemma_csi_len(rest);
        }
        strip_ansi_spec(rest.skip(csi_len(rest) as int))
    } else if s[1] == ']' {
        let rest = s.skip(2);
        proof {
            lemma_osc_len(rest);
        }
        strip_ansi_spec(rest.skip(osc_len(rest) as int))
    } else {
        strip_ansi_spec(s.skip(2))
    }
}

/// Where the control sequence that starts at `start` (just after `ESC [`) ends.
fn csi_end(cs: &[char], start: usize) -> (r: usize)
    requires
        start <= cs@.len(),
    ensures
        r == start + csi_len(cs@.skip(start as int)),
        r <= cs@.len(),
{
    let mut i = start;
    while i < cs.len()
        invariant
            start <= i <= cs@.len(),
            start + csi_len(cs@.skip(start as int)) == i + csi_len(cs@.skip(i as int)),
        decreases cs.len() - i,
    {
        let c = cs[i];
        assert(cs@.skip(i as int)[0] == c);
        if 0x40u32 <= (c as u32) && (c as u32) <= 0x7eu32 {
            return i + 1;
        }
        assert(cs@.skip(i as int).skip(1) =~= cs@.skip(i + 1));
        i = i + 1;
    }
    assert(cs@.skip(i as int).len() == 0);
    i
}

/// Where the operating system command that starts at `start` (just after `ESC ]`) ends.
fn osc_end(cs: &[char], start: usize) -> (r: usize)
    requires
        start <= cs@.len(),
    ensures
        r == start + osc_len(cs@.skip(start as int)),
        r <= cs@.len(),
{
    let mut i = start;
    while i < cs.len()
        invariant
            start <= i <= cs@.len(),
            start + osc_len(cs@.skip(start as int)) == i + osc_len(cs@.skip(i as int)),
        decreases cs.len() - i,
    {
        let c = cs[i];
        let ghost t = cs@.skip(i as int);
        assert(t[0] == c);
        if c == '\u{07}' {
            return i + 1;
        }
        if c == '\u{1b}' && i + 1 < cs.len() && cs[i + 1] == '\\' {
            assert(t[1] == cs@[i + 1]);
            return i + 2;
        }
        assert(t.skip(1) =~= cs@.skip(i + 1));
        i = i + 1;
    }
    assert(cs@.skip(i as int).len() == 0);
    i
}

/// The characters of `input` without terminal escape sequences.
pub fn strip_ansi_chars(cs: &[char]) -> (r: Vec<char>)
    ensures
        r@ == strip_ansi_spec(cs@),
{
    let n = cs.len();
    let mut out: Vec<char> = Vec::new();
    let mut i: usize = 0;
    assert(cs@.skip(0) =~= cs@);
    while i < n
        invariant
            n == cs@.len(),
            i <= n,
            strip_ansi_spec(cs@) == out@ + strip_ansi_spec(cs@.skip(i as int)),
        decreases n - i,
    {
        let ghost t = cs@.skip(i as int);
        let c = cs[i];
        assert(t[0] == c);
        if c != '\u{1b}' {
            assert(t.skip(1) =~= cs@.skip(i + 1));
            assert(out@.push(c) + strip_ansi_spec(cs@.skip(i + 1)) =~= out@ + (seq![c]
                + strip_ansi_spec(t.skip(1))));
            out.push(c);
            i = i + 1;
        } else if i + 1 >= n {
            assert(t.len() == 1);
            assert(cs@.skip(n as int).len() == 0);
            assert(out@ + strip_ansi_spec(t) =~= out@);
            i = n;
        } else {
            let next = cs[i + 1];
            assert(t[1] == next);
            if next == '[' {
                assert(t.skip(2) =~= cs@.skip(i + 2));
                let end = csi_end(cs, i + 2);
                proof {
                    lemma_csi_len(t.skip(2));
                    assert(t.skip(2).skip(csi_len(t.skip(2)) as int) =~= cs@.skip(end as int));
                }
                i = end;
            } else if next == ']' {
                assert(t.skip(2) =~= cs@.skip(i + 2));
                let end = osc_end(cs, i + 2);
                proof {
                    lemma_osc_len(t.skip(2));
                    assert(t.skip(2).skip(osc_len(t.skip(2)) as int) =~= cs@.skip(end as int));
                }
                i = end;
            } else {
                assert(t.skip(2) =~= cs@.skip(i + 2));
                i = i + 2;
            }
        }
    }
    assert(cs@.skip(n as int).len() == 0);
    assert(out@ + strip_ansi_spec(cs@.skip(n as int)) =~= out@);
    out
}

/// `input` without terminal escape sequences.
pub fn strip_ansi_escape_sequences(input: &str) -> (r: String)
    ensures
        r@ == strip_ansi_spec(input@),
{
    let cs = chars_of(input);
    let out = strip_ansi_chars(cs.as_slice());
    string_from_chars(out.as_slice())
}

/// Stripped text holds no escape character.
pub proof fn law_stripped_text_has_no_escape(s: Seq<char>)
    ensures
        !strip_ansi_spec(s).contains(esc()),
    decreases s.len(),
{
    if s.len() == 0 {
    } else if s[0] != esc() {
        law_stripped_text_has_no_escape(s.skip(1));
        assert forall|i: int| 0 <= i < strip_ansi_spec(s).len() implies strip_ansi_spec(s)[i]
            != esc() by {
            if i > 0 {
                assert(strip_ansi_spec(s)[i] == strip_ansi_spec(s.skip(1))[i - 1]);
            }
        }
    } else if s.len() == 1 {
    } else if s[1] == '[' {
        lemma_csi_len(s.skip(2));
        law_stripped_text_has_no_escape(s.skip(2).skip(csi_len(s.skip(2)) as int));
    } else if s[1] == ']' {
        lemma_osc_len(s.skip(2));
        law_stripped_text_has_no_escape(s.skip(2).skip(osc_len(s.skip(2)) as int));
    } else {
        law_stripped_text_has_no_escape(s.skip(2));
    }
}

/// Text without an escape character is left as it is.
pub proof fn law_strip_keeps_plain_text(s: Seq<char>)
    requires
        !s.contains(esc()),
    ensures
        strip_ansi_spec(s) == s,
    decreases s.len(),
{
    if s.len() > 0 {
        assert(s[0] != esc());
        assert(!s.skip(1).contains(esc())) by {
            if s.skip(1).contains(esc()) {
                let k = choose|k: int| 0 <= k < s.skip(1).len() && s.skip(1)[k] == esc();
                assert(s[k + 1] == esc());
            }
        }
        law_strip_keeps_plain_text(s.skip(1));
        assert(seq![s[0]] + s.skip(1) =~= s);
    }
}

/// `a` is a subsequence of `b`: its characters occur in `b` in the same order.
pub open spec fn is_subsequence(a: Seq<char>, b: Seq<char>) -> bool
    decreases b.len(),
{
    if a.len() == 0 {
        true
    } else if b.len() == 0 {
        false
    } else if a[0] == b[0] {
        is_subsequence(a.skip(1), b.skip(1))
    } else {
        is_subsequence(a, b.skip(1))
    }
}

/// A subsequence of the rest of `b` is a subsequence of `b`.
proof fn lemma_subsequence_extend(a: Seq<char>, b: Seq<char>)
    requires
        b.len() > 0,
        is_subsequence(a, b.skip(1)),
    ensures
        is_subsequence(a, b),
    decreases a.len() + b.len(), 1int,
{
    if a.len() > 0 && a[0] == b[0] {
        lemma_subsequence_drop_first(a, b.skip(1));
    }
}

/// Without its first character, a subsequence stays a subsequence.
proof fn lemma_subsequence_drop_first(a: Seq<char>, c: Seq<char>)
    requires
        a.len() > 0,
        is_subsequence(a, c),
    ensures
        is_subsequence(a.skip(1), c),
    decreases a.len() + c.len(), 0int,
{
    if a[0] == c[0] {
        lemma_subsequence_extend(a.skip(1), c);
    } else {
        lemma_subsequence_drop_first(a, c.skip(1));
        lemma_subsequence_extend(a.skip(1), c);
    }
}

/// A subsequence of a suffix of `b` is a subsequence of `b`.
proof fn lemma_subsequence_of_suffix(a: Seq<char>, b: Seq<char>, k: int)
    requires
        0 <= k <= b.len(),
        is_subsequence(a, b.skip(k)),
    ensures
        is_subsequence(a, b),
    decreases k,
{
    if k == 0 {
        assert(b.skip(0) =~= b);
    } else {
        assert(b.skip(1).skip(k - 1) =~= b.skip(k));
        lemma_subsequence_of_suffix(a, b.skip(1), k - 1);
        lemma_subsequence_extend(a, b);
    }
}

/// Stripping escape sequences only takes characters out: what is left is a subsequence of
/// the text, in its order.
pub proof fn law_stripped_text_is_subsequence(s: Seq<char>)
    ensures
        is_subsequence(strip_ansi_spec(s), s),
    decreases s.len(),
{
    if s.len() == 0 {
    } else if s[0] != esc() {
        law_stripped_text_is_subsequence(s.skip(1));
        let t = seq![s[0]] + strip_ansi_spec(s.skip(1));
        assert(t.skip(1) =~= strip_ansi_spec(s.skip(1)));
    } else if s.len() == 1 {
    } else {
        let rest = s.skip(2);
        let k: int = if s[1] == '[' {
            lemma_csi_len(rest);
            csi_len(rest) as int
        } else if s[1] == ']' {
            lemma_osc_len(rest);
            osc_len(rest) as int
        } else {
            0
        };
        assert(rest.skip(k) =~= s.skip(2 + k));
        law_stripped_text_is_subsequence(s.skip(2 + k));
        lemma_subsequence_of_suffix(strip_ansi_spec(s), s, 2 + k);
    }
}

/// Stripping twice strips no more than stripping once.
pub proof fn law_strip_is_idempotent(s: Seq<char>)
    ensures
        strip_ansi_spec(strip_ansi_spec(s)) == strip_ansi_spec(s),
{
    law_stripped_text_has_no_escape(s);
    law_strip_keeps_plain_text(strip_ansi_spec(s));
}

/// `ratatui::style::Style`, the style `ansi_to_tui` gives a run.
#[verifier::external_type_specification]
#[verifier::external_body]
pub struct ExStyle(Style);

/// `ansi_to_tui::Error`, a failure to parse a screen.
#[verifier::external_type_specification]
#[verifier::external_body]
pub struct ExAnsiError(ansi_to_tui::Error);

/// The style of a run, as plain values: its foreground, background and underline colors by
/// the names `ratatui` gives them (`Red`, `#FF0000`, `12`), and the bits of the modifiers it
/// adds and removes. A style with no color and no bits sets nothing (`Style::default()`).
#[derive(Debug, Clone, PartialEq, Eq)]
pub struct RunStyle {
    pub fg: Option<String>,
    pub bg: Option<String>,
    pub underline_color: Option<String>,
    pub add_modifier: u16,
    pub sub_modifier: u16,
}

/// The mathematical value of a run style.
pub struct RunStyleView {
    pub fg: Option<Seq<char>>,
    pub bg: Option<Seq<char>>,
    pub underline_color: Option<Seq<char>>,
    pub add_modifier: u16,
    pub sub_modifier: u16,
}

impl View for RunStyle {
    type V = RunStyleView;

    open spec fn view(&self) -> RunStyleView {
        RunStyleView {
            fg: opt_view(self.fg),
            bg: opt_view(self.bg),
            underline_color: opt_view(self.underline_color),
            add_modifier: self.add_modifier,
            sub_modifier: self.sub_modifier,
        }
    }
}

/// The style that sets nothing.
pub open spec fn plain_style_view() -> RunStyleView {
    RunStyleView { fg: None, bg: None, underline_color: None, add_modifier: 0, sub_modifier: 0 }
}

impl RunStyle {
    /// The style that sets nothing.
    pub fn plain() -> (r: RunStyle)
        ensures
            r@ == plain_style_view(),
    {
        RunStyle { fg: None, bg: None, underline_color: None, add_modifier: 0, sub_modifier: 0 }
    }
}

/// A run of text in one style.
#[derive(Debug, PartialEq)]
pub struct StyledSpan {
    pub content: String,
    pub style: RunStyle,
}

/// A line of styled runs.
#[derive(Debug, PartialEq)]
pub struct StyledLine {
    pub spans: Vec<StyledSpan>,
}

/// The texts of a line's runs.
pub open spec fn span_texts(l: StyledLine) -> Seq<Seq<char>> {
    l.spans@.map_values(|s: StyledSpan| s.content@)
}

/// Every run of the line sets no style.
pub open spec fn all_plain(l: StyledLine) -> bool {
    forall|k: int| 0 <= k < l.spans@.len() ==> (#[trigger] l.spans@[k]).style@ == plain_style_view()
}

/// The styles of a line's runs.
pub open spec fn span_styles(l: StyledLine) -> Seq<RunStyleView> {
    l.spans@.map_values(|s: StyledSpan| s.style@)
}

/// What `ansi_to_tui` makes of a screen text: for each line it parses, the text of each of
/// its runs. It is a function of the text alone.
pub uninterp spec fn ansi_run_texts(body: Seq<char>) -> Seq<Seq<Seq<char>>>;

/// What `ansi_to_tui` makes of a screen text: for each line it parses, the style of each of
/// its runs (colors by their `ratatui` names, modifiers by their bits). It is a function of
/// the text alone.
pub uninterp spec fn ansi_run_styles(body: Seq<char>) -> Seq<Seq<RunStyleView>>;

/// The texts of the runs of parsed lines, line by line.
pub open spec fn run_texts(lines: Seq<Vec<(String, RunStyle)>>) -> Seq<Seq<Seq<char>>> {
    lines.map_values(|l: Vec<(String, RunStyle)>| l@.map_values(|p: (String, RunStyle)| p.0@))
}

/// The styles of the runs of parsed lines, line by line.
pub open spec fn run_styles(lines: Seq<Vec<(String, RunStyle)>>) -> Seq<Seq<RunStyleView>> {
    lines.map_values(|l: Vec<(String, RunStyle)>| l@.map_values(|p: (String, RunStyle)| p.1@))
}

/// `<str as ansi_to_tui::IntoText>::into_text`: parses the escape sequences of a screen into
/// styled lines, each taken as its runs' owned text and plain style. Its parser collects lines
/// until one fails and then returns them, so the call succeeds on every text; the texts and
/// styles of the runs are those the two names above give for the text.
#[verifier::external_body]
fn ansi_parse_lines(body: &str) -> (r: Result<Vec<Vec<(String, RunStyle)>>, ansi_to_tui::Error>)
    ensures
        r is Ok,
        r matches Ok(lines) ==> run_texts(lines@) == ansi_run_texts(body@) && run_styles(lines@)
            == ansi_run_styles(body@),
{
    let text = body.into_text()?;
    Ok(text.lines.into_iter().map(|line| line.spans.into_iter().map(|span| (span.content.into_owned(), run_style_of(&span.style))).collect()).collect())
}

/// A `ratatui` style as plain values: each color by its `Display` name, each modifier set by
/// its bits. It is part of the conversion in `ansi_parse_lines`, whose contract states what the
/// styles are.
#[verifier::external_body]
fn run_style_of(style: &Style) -> RunStyle {
    RunStyle {
        fg: style.fg.map(|c| c.to_string()),
        bg: style.bg.map(|c| c.to_string()),
        underline_color: style.underline_color.map(|c| c.to_string()),
        add_modifier: style.add_modifier.bits(),
        sub_modifier: style.sub_modifier.bits(),
    }
}

/// `<ansi_to_tui::Error as Display>::fmt`: the text of a parse failure.
#[verifier::external_body]
fn ansi_error_text(e: &ansi_to_tui::Error) -> String {
    e.to_string()
}

impl StyledLine {
    /// A line of plain text as `Line::from` makes it: one unstyled run per line of `text`.
    pub fn plain(text: &str) -> (r: StyledLine)
        ensures
            span_texts(r) == lines_seq(text@),
            all_plain(r),
    {
        let cs = chars_of(text);
        let parts = lines_chars(cs.as_slice());
        let mut spans: Vec<StyledSpan> = Vec::new();
        let mut i: usize = 0;
        while i < parts.len()
            invariant
                i <= parts@.len(),
                views(parts@) == lines_seq(text@),
                spans@.map_values(|s: StyledSpan| s.content@) == views(parts@).take(i as int),
                forall|k: int| 0 <= k < spans@.len() ==> (#[trigger] spans@[k]).style@ == plain_style_view(),
            decreases parts.len() - i,
        {
            let content = string_from_chars(parts[i].as_slice());
            let ghost before = spans@;
            spans.push(StyledSpan { content, style: RunStyle::plain() });
            assert(spans@.map_values(|s: StyledSpan| s.content@) =~= before.map_values(
                |s: StyledSpan| s.content@,
            ).push(parts@[i as int]@));
            assert(views(parts@).take(i + 1) =~= views(parts@).take(i as int).push(
                parts@[i as int]@,
            ));
            i = i + 1;
        }
        assert(views(parts@).take(parts@.len() as int) =~= views(parts@));
        StyledLine { spans }
    }
}

/// One plain line per line of `text`.
pub open spec fn plain_lines_of(text: Seq<char>, lines: Seq<StyledLine>) -> bool {
    &&& lines.len() == lines_seq(text).len()
    &&& forall|i: int|
        0 <= i < lines.len() ==> span_texts(#[trigger] lines[i]) == lines_seq(lines_seq(text)[i])
            && all_plain(lines[i])
}

/// One plain line per line of `text`, as `Line::from` makes each.
pub fn plain_lines(text: &str) -> (r: Vec<StyledLine>)
    ensures
        plain_lines_of(text@, r@),
{
    let cs = chars_of(text);
    let parts = lines_chars(cs.as_slice());
    let mut out: Vec<StyledLine> = Vec::new();
    let mut i: usize = 0;
    while i < parts.len()
        invariant
            i <= parts@.len(),
            views(parts@) == lines_seq(text@),
            out@.len() == i,
            forall|j: int|
                0 <= j < i ==> span_texts(#[trigger] out@[j]) == lines_seq(lines_seq(text@)[j])
                    && all_plain(out@[j]),
        decreases parts.len() - i,
    {
        let line_text = string_from_chars(parts[i].as_slice());
        assert(line_text@ == lines_seq(text@)[i as int]);
        out.push(StyledLine::plain(line_text.as_str()));
        i = i + 1;
    }
    out
}

/// The lines of a pane's screen text without escape sequences, as plain lines.
pub fn plain_snapshot_body_lines(body: &str) -> (r: Vec<StyledLine>)
    ensures
        plain_lines_of(strip_ansi_spec(body@), r@),
{
    let stripped = strip_ansi_escape_sequences(body);
    plain_lines(stripped.as_str())
}

/// The text shown when an error message has nothing left after stripping.
pub open spec fn no_error_details() -> Seq<char> {
    "(no error details available)"@
}

/// `lines` are the lines an error message shows: those of the message without escape
/// sequences, or a placeholder line when nothing is left.
pub open spec fn error_lines_spec(message: Seq<char>, lines: Seq<StyledLine>) -> bool {
    let stripped = strip_ansi_spec(message);
    if stripped.len() == 0 {
        lines.len() == 1 && span_texts(lines[0]) == lines_seq(no_error_details()) && all_plain(
            lines[0],
        )
    } else {
        plain_lines_of(stripped, lines)
    }
}

/// The lines of an error message without escape sequences, or a placeholder line when
/// nothing is left.
pub fn sanitized_error_lines(message: &str) -> (r: Vec<StyledLine>)
    ensures
        error_lines_spec(message@, r@),
{
    let sanitized = strip_ansi_escape_sequences(message);
    if sanitized.as_str().unicode_len() == 0 {
        return vec![StyledLine::plain("(no error details available)")];
    }
    plain_lines(sanitized.as_str())
}

/// The lines a screen text shows, and a note when its escape sequences could not be parsed.
#[derive(Debug, PartialEq)]
pub struct SnapshotBodyLines {
    pub lines: Vec<StyledLine>,
    pub note: Option<String>,
}

/// `out` is `line` with every run's text stripped of escape sequences, in the same style.
pub open spec fn line_sanitized(line: StyledLine, out: StyledLine) -> bool {
    &&& out.spans@.len() == line.spans@.len()
    &&& forall|k: int|
        0 <= k < line.spans@.len() ==> (#[trigger] out.spans@[k]).content@ == strip_ansi_spec(
            line.spans@[k].content@,
        ) && out.spans@[k].style == line.spans@[k].style
}

/// A parsed line with every run's text stripped of escape sequences.
fn sanitize_line(line: StyledLine) -> (r: StyledLine)
    ensures
        line_sanitized(line, r),
{
    let ghost orig = line;
    let StyledLine { spans } = line;
    let ghost all = spans@;
    let mut rest = spans;
    let mut out: Vec<StyledSpan> = Vec::new();
    while rest.len() > 0
        invariant
            out@.len() <= all.len(),
            rest@ == all.skip(out@.len() as int),
            all == orig.spans@,
            forall|k: int|
                0 <= k < out@.len() ==> (#[trigger] out@[k]).content@ == strip_ansi_spec(
                    all[k].content@,
                ) && out@[k].style == all[k].style,
        decreases rest.len(),
    {
        let ghost n = out@.len() as int;
        let span = rest.remove(0);
        assert(all.skip(n).drop_first() =~= all.skip(n + 1));
        let content = strip_ansi_escape_sequences(span.content.as_str());
        out.push(StyledSpan { content, style: span.style });
    }
    StyledLine { spans: out }
}

/// The text of the note shown when a screen's escape sequences could not be parsed.
pub open spec fn parse_failure_note(error: Seq<char>) -> Seq<char> {
    "note: ANSI parse failed; showing sanitized plain text ("@ + error + ")"@
}

/// The lines a screen text shows given the parse of its escape sequences: the parsed lines,
/// with any escape sequence left in a run taken out; or, when the parse failed, the stripped
/// text as plain lines and a note that says why.
pub fn snapshot_body_lines_from_parse_result(
    body: &str,
    parse_result: Result<Vec<StyledLine>, String>,
) -> (r: SnapshotBodyLines)
    ensures
        match parse_result {
            Ok(lines) => {
                &&& r.note is None
                &&& r.lines@.len() == lines@.len()
                &&& forall|i: int|
                    0 <= i < lines@.len() ==> line_sanitized(lines@[i], #[trigger] r.lines@[i])
            },
            Err(error) => {
                &&& r.note matches Some(n) && n@ == parse_failure_note(error@)
                &&& plain_lines_of(strip_ansi_spec(body@), r.lines@)
            },
        },
{
    match parse_result {
        Ok(lines) => {
            let ghost all = lines@;
            let mut rest = lines;
            let mut out: Vec<StyledLine> = Vec::new();
            while rest.len() > 0
                invariant
                    out@.len() <= all.len(),
                    rest@ == all.skip(out@.len() as int),
                    forall|i: int|
                        0 <= i < out@.len() ==> line_sanitized(all[i], #[trigger] out@[i]),
                decreases rest.len(),
            {
                let ghost n = out@.len() as int;
                let line = rest.remove(0);
                assert(all.skip(n).drop_first() =~= all.skip(n + 1));
                out.push(sanitize_line(line));
            }
            SnapshotBodyLines { lines: out, note: None }
        },
        Err(error) => {
            let note = concat3(
                "note: ANSI parse failed; showing sanitized plain text (",
                error.as_str(),
                ")",
            );
            SnapshotBodyLines { lines: plain_snapshot_body_lines(body), note: Some(note) }
        },
    }
}

/// A parsed line as styled runs: each run's text and style, in order.
fn styled_line_of(runs: Vec<(String, RunStyle)>) -> (r: StyledLine)
    ensures
        span_texts(r) == runs@.map_values(|p: (String, RunStyle)| p.0@),
        span_styles(r) == runs@.map_values(|p: (String, RunStyle)| p.1@),
        r.spans@.len() == runs@.len(),
        forall|k: int| 0 <= k < runs@.len() ==> (#[trigger] r.spans@[k]).style == runs@[k].1,
{
    let ghost all = runs@;
    let mut rest = runs;
    let mut spans: Vec<StyledSpan> = Vec::new();
    while rest.len() > 0
        invariant
            spans@.len() <= all.len(),
            rest@ == all.skip(spans@.len() as int),
            forall|k: int|
                0 <= k < spans@.len() ==> (#[trigger] spans@[k]).content@ == all[k].0@
                    && spans@[k].style == all[k].1,
        decreases rest.len(),
    {
        let ghost n = spans@.len() as int;
        let (content, style) = rest.remove(0);
        assert(all.skip(n).drop_first() =~= all.skip(n + 1));
        spans.push(StyledSpan { content, style });
    }
    let r = StyledLine { spans };
    assert(span_texts(r) =~= all.map_values(|p: (String, RunStyle)| p.0@));
    assert(span_styles(r) =~= all.map_values(|p: (String, RunStyle)| p.1@));
    r
}

/// The styled lines `ansi_to_tui` parses a screen text into, or the text of its failure.
pub fn parse_ansi_snapshot_body_lines(body: &str) -> (r: Result<Vec<StyledLine>, String>)
    ensures
        r matches Ok(lines) && lines@.len() == ansi_run_texts(body@).len() && forall|i: int|
            0 <= i < lines@.len() ==> span_texts(#[trigger] lines@[i]) == ansi_run_texts(
                body@,
            )[i] && span_styles(lines@[i]) == ansi_run_styles(body@)[i],
{
    match ansi_parse_lines(body) {
        Ok(parsed) => {
            let ghost all = parsed@;
            let mut rest = parsed;
            let mut lines: Vec<StyledLine> = Vec::new();
            while rest.len() > 0
                invariant
                    lines@.len() <= all.len(),
                    rest@ == all.skip(lines@.len() as int),
                    forall|i: int|
                        0 <= i < lines@.len() ==> span_texts(#[trigger] lines@[i])
                            == all[i]@.map_values(|p: (String, RunStyle)| p.0@) && span_styles(
                            lines@[i],
                        ) == all[i]@.map_values(|p: (String, RunStyle)| p.1@),
                decreases rest.len(),
            {
                let ghost n = lines@.len() as int;
                let line = rest.remove(0);
                assert(all.skip(n).drop_first() =~= all.skip(n + 1));
                lines.push(styled_line_of(line));
            }
            proof {
                assert forall|i: int| 0 <= i < lines@.len() implies span_texts(
                    #[trigger] lines@[i],
                ) == ansi_run_texts(body@)[i] && span_styles(lines@[i]) == ansi_run_styles(
                    body@,
                )[i] by {
                    assert(run_texts(all)[i] == all[i]@.map_values(|p: (String, RunStyle)| p.0@));
                    assert(run_styles(all)[i] == all[i]@.map_values(|p: (String, RunStyle)| p.1@));
                }
            }
            Ok(lines)
        },
        Err(error) => Err(ansi_error_text(&error)),
    }
}

/// `lines` are the lines a pane's screen text shows: one per line `ansi_to_tui` parses, each
/// with that line's runs, their texts stripped of escape sequences and their styles kept.
pub open spec fn body_lines_spec(body: Seq<char>, lines: Seq<StyledLine>) -> bool {
    &&& lines.len() == ansi_run_texts(body).len()
    &&& forall|i: int|
        0 <= i < lines.len() ==> span_texts(#[trigger] lines[i]) == ansi_run_texts(body)[i].map_values(
            |t: Seq<char>| strip_ansi_spec(t),
        ) && span_styles(lines[i]) == ansi_run_styles(body)[i]
}

/// The lines a pane's screen text shows: its parsed, styled lines, with no escape sequence
/// left in any run.
pub fn render_snapshot_body_lines(body: &str) -> (r: SnapshotBodyLines)
    ensures
        r.note is None,
        body_lines_spec(body@, r.lines@),
        forall|i: int, k: int|
            0 <= i < r.lines@.len() && 0 <= k < r.lines@[i].spans@.len() ==> !(
            #[trigger] r.lines@[i].spans@[k]).content@.contains(esc()),
{
    let parsed = parse_ansi_snapshot_body_lines(body);
    let ghost p = parsed;
    let r = snapshot_body_lines_from_parse_result(body, parsed);
    proof {
        assert forall|i: int, k: int|
            0 <= i < r.lines@.len() && 0 <= k < r.lines@[i].spans@.len() implies !(
            #[trigger] r.lines@[i].spans@[k]).content@.contains(esc()) by {
            let lines = p->Ok_0;
            assert(line_sanitized(lines@[i], r.lines@[i]));
            law_stripped_text_has_no_escape(lines@[i].spans@[k].content@);
        }
        assert forall|i: int| 0 <= i < r.lines@.len() implies span_texts(
            #[trigger] r.lines@[i],
        ) == ansi_run_texts(body@)[i].map_values(|t: Seq<char>| strip_ansi_spec(t)) && span_styles(
            r.lines@[i],
        ) == ansi_run_styles(body@)[i] by {
            let lines = p->Ok_0;
            assert(line_sanitized(lines@[i], r.lines@[i]));
            assert(span_texts(lines@[i]) == ansi_run_texts(body@)[i]);
            assert(span_texts(r.lines@[i]) =~= ansi_run_texts(body@)[i].map_values(
                |t: Seq<char>| strip_ansi_spec(t),
            ));
            assert(span_styles(r.lines@[i]) =~= span_styles(lines@[i]));
        }
    }
    r
}

/// `lines` are plain lines of `texts`, one each.
pub open spec fn plain_texts(lines: Seq<StyledLine>, texts: Seq<Seq<char>>) -> bool {
    &&& lines.len() == texts.len()
    &&& forall|i: int|
        0 <= i < lines.len() ==> span_texts(#[trigger] lines[i]) == lines_seq(texts[i])
            && all_plain(lines[i])
}

/// The word for where data came from.
pub open spec fn freshness_text(f: SourceFreshness) -> Seq<char> {
    match f {
        SourceFreshness::Runtime => "runtime"@,
        SourceFreshness::Subscription => "subscription"@,
        SourceFreshness::Cache => "cache"@,
        SourceFreshness::Stale => "stale"@,
        SourceFreshness::Error => "error"@,
    }
}

/// The word for where data came from.
pub fn freshness_label(freshness: SourceFreshness) -> (r: &'static str)
    ensures
        r@ == freshness_text(freshness),
{
    match freshness {
        SourceFreshness::Runtime => "runtime",
        SourceFreshness::Subscription => "subscription",
        SourceFreshness::Cache => "cache",
        SourceFreshness::Stale => "stale",
        SourceFreshness::Error => "error",
    }
}

/// How a staged action reads in the status line.
pub open spec fn action_text(a: SelectionActionView) -> Seq<char> {
    match a {
        SelectionActionView::SwitchSession { session_name } => "switch-session "@ + session_name,
        SelectionActionView::SwitchTab { session_name, tab_position, .. } => "switch-tab "@
            + session_name + "@"@ + decimal_seq(tab_position as nat),
        SelectionActionView::FocusPane { session_name, tab_position, pane_id, .. } => "focus-pane "@
            + session_name + "@"@ + decimal_seq(tab_position as nat) + ":"@ + decimal_seq(
            pane_id as nat,
        ),
        SelectionActionView::NoAction => "no-action"@,
    }
}

/// How a staged action reads in the status line.
pub fn selection_action_summary(action: &SelectionAction) -> (r: String)
    ensures
        r@ == action_text(action@),
{
    match action {
        SelectionAction::SwitchSession { session_name } => concat2(
            "switch-session ",
            session_name.as_str(),
        ),
        SelectionAction::SwitchTab { session_name, tab_position, .. } => {
            let position = u64_to_text(*tab_position);
            let head = concat3("switch-tab ", session_name.as_str(), "@");
            concat2(head.as_str(), position.as_str())
        },
        SelectionAction::FocusPane { session_name, tab_position, pane_id, .. } => {
            let position = u64_to_text(*tab_position);
            let pane = u64_to_text(*pane_id);
            let head = concat3("focus-pane ", session_name.as_str(), "@");
            let middle = concat3(head.as_str(), position.as_str(), ":");
            concat2(middle.as_str(), pane.as_str())
        },
        SelectionAction::NoAction => "no-action".to_owned(),
    }
}

/// The heading lines of a pane preview: its title, then the session, tab and pane it shows,
/// then a blank line.
pub open spec fn pane_heading(title: Seq<char>, q: PaneSnapshotRequestView) -> Seq<Seq<char>> {
    seq![
        title,
        "session: "@ + q.session_name,
        "tab: id="@ + decimal_seq(q.tab_id as nat) + ", position="@ + decimal_seq(
            q.tab_position as nat,
        ),
        "pane: id="@ + decimal_seq(q.pane_id as nat),
        seq![],
    ]
}

/// The lines of a pane preview: its heading, then `details`.
pub fn pane_snapshot_lines(
    title: &str,
    request: &PaneSnapshotRequest,
    details: Vec<StyledLine>,
) -> (r: Vec<StyledLine>)
    ensures
        r@.len() == 5 + details@.len(),
        plain_texts(r@.take(5), pane_heading(title@, request@)),
        r@.skip(5) == details@,
{
    let tab_id = u64_to_text(request.tab_id);
    let tab_position = u64_to_text(request.tab_position);
    let pane_id = u64_to_text(request.pane_id);
    let session_line = concat2("session: ", request.session_name.as_str());
    let tab_head = concat3("tab: id=", tab_id.as_str(), ", position=");
    let tab_line = concat2(tab_head.as_str(), tab_position.as_str());
    let pane_line = concat2("pane: id=", pane_id.as_str());
    let mut lines: Vec<StyledLine> = Vec::new();
    lines.push(StyledLine::plain(title));
    lines.push(StyledLine::plain(session_line.as_str()));
    lines.push(StyledLine::plain(tab_line.as_str()));
    lines.push(StyledLine::plain(pane_line.as_str()));
    lines.push(StyledLine::plain(""));
    proof {
        reveal_strlit("");
    }
    let ghost head = lines@;
    let mut rest = details;
    lines.append(&mut rest);
    assert(lines@.take(5) =~= head);
    assert(lines@.skip(5) =~= details@);
    lines
}

/// The lines shown for a session or tab summary, or an unavailable preview.
pub open spec fn summary_texts(t: PreviewTargetView) -> Seq<Seq<char>> {
    match t {
        PreviewTargetView::SessionSummary { session_name, source_freshness } => seq![
            "Session summary"@,
            "session: "@ + session_name,
            "source: "@ + freshness_text(source_freshness),
            seq![],
            "select a terminal pane to capture a snapshot"@,
        ],
        PreviewTargetView::TabSummary { session_name, tab_id, tab_position, source_freshness } => seq![
            "Tab summary"@,
            "session: "@ + session_name,
            "tab: id="@ + decimal_seq(tab_id as nat) + ", position="@ + decimal_seq(
                tab_position as nat,
            ),
            "source: "@ + freshness_text(source_freshness),
            seq![],
            "select a terminal pane to capture a snapshot"@,
        ],
        PreviewTargetView::Unavailable { reason } => seq![
            "Preview unavailable"@,
            "reason: "@ + reason,
            seq![],
            "selection has no preview route"@,
        ],
        _ => seq![],
    }
}

/// The lines shown for a pane whose preview is not ready: its heading and a line or two
/// that say why (`None` for a ready preview).
pub open spec fn pane_state_texts(
    target: PaneSnapshotRequestView,
    freshness: SourceFreshness,
    state: SnapshotPreviewStateView,
) -> Option<Seq<Seq<char>>> {
    match state {
        SnapshotPreviewStateView::Loading { request } => Some(
            pane_heading("Pane snapshot (loading)"@, request) + seq![
                "fetching initial dump-screen output before near-live refresh..."@,
            ],
        ),
        SnapshotPreviewStateView::Empty { request } => Some(
            pane_heading("Pane snapshot (empty)"@, request) + seq![
                "no visible pane content returned by dump-screen (near-live refresh continues)"@,
            ],
        ),
        SnapshotPreviewStateView::Stale { request } => Some(
            pane_heading("Pane snapshot (stale)"@, request) + seq![
                "selection source is stale; move selection to refresh"@,
            ],
        ),
        SnapshotPreviewStateView::Unavailable { reason } => Some(
            pane_heading("Pane snapshot unavailable"@, target) + seq![
                "source: "@ + freshness_text(freshness),
                reason,
            ],
        ),
        _ => None,
    }
}

/// No run of these lines holds an escape character.
pub open spec fn escape_free(lines: Seq<StyledLine>) -> bool {
    forall|i: int, k: int|
        0 <= i < lines.len() && 0 <= k < lines[i].spans@.len() ==> !(
        #[trigger] lines[i].spans@[k]).content@.contains(esc())
}

/// Plain lines of text without an escape character hold none either.
proof fn lemma_plain_lines_escape_free(text: Seq<char>, lines: Seq<StyledLine>)
    requires
        plain_lines_of(text, lines),
        !text.contains(esc()),
    ensures
        escape_free(lines),
{
    crate::text::lemma_lines_keep_absent_char(text, esc());
    assert forall|i: int, k: int|
        0 <= i < lines.len() && 0 <= k < lines[i].spans@.len() implies !(
        #[trigger] lines[i].spans@[k]).content@.contains(esc()) by {
        assert(span_texts(lines[i]) == lines_seq(lines_seq(text)[i]));
        assert(!lines_seq(text)[i].contains(esc()));
        crate::text::lemma_lines_keep_absent_char(lines_seq(text)[i], esc());
        assert(span_texts(lines[i])[k] == lines[i].spans@[k].content@);
    }
}

/// A plain line of a literal text without an escape character.
fn literal_line(text: &str) -> (r: StyledLine)
    requires
        !text@.contains(esc()),
    ensures
        span_texts(r) == lines_seq(text@),
        escape_free(seq![r]),
{
    let r = StyledLine::plain(text);
    proof {
        crate::text::lemma_lines_keep_absent_char(text@, esc());
        assert forall|i: int, k: int|
            0 <= i < seq![r].len() && 0 <= k < seq![r][i].spans@.len() implies !(
            #[trigger] seq![r][i].spans@[k]).content@.contains(esc()) by {
            assert(span_texts(r)[k] == r.spans@[k].content@);
        }
    }
    r
}

/// Appending an escape-free line keeps lines escape-free.
proof fn lemma_escape_free_push(a: Seq<StyledLine>, x: StyledLine)
    requires
        escape_free(a),
        escape_free(seq![x]),
    ensures
        escape_free(a.push(x)),
{
    assert forall|i: int, k: int|
        0 <= i < a.push(x).len() && 0 <= k < a.push(x)[i].spans@.len() implies !(
        #[trigger] a.push(x)[i].spans@[k]).content@.contains(esc()) by {
        if i < a.len() {
            assert(a.push(x)[i] == a[i]);
        } else {
            assert(a.push(x)[i] == seq![x][0]);
        }
    }
}

/// Plain heading lines followed by plain detail lines are plain lines of both texts.
proof fn lemma_plain_concat(
    r: Seq<StyledLine>,
    heading: Seq<Seq<char>>,
    details: Seq<Seq<char>>,
)
    requires
        r.len() == heading.len() + details.len(),
        plain_texts(r.take(heading.len() as int), heading),
        plain_texts(r.skip(heading.len() as int), details),
    ensures
        plain_texts(r, heading + details),
{
    assert forall|i: int| 0 <= i < r.len() implies span_texts(#[trigger] r[i]) == lines_seq(
        (heading + details)[i],
    ) && all_plain(r[i]) by {
        if i < heading.len() {
            assert(r.take(heading.len() as int)[i] == r[i]);
        } else {
            assert(r.skip(heading.len() as int)[i - heading.len()] == r[i]);
        }
    }
}

/// `tail` is what a ready preview shows after its heading: the lines of the screen text, then
/// a note when the text is blank, or when it has text but no line parsed.
pub open spec fn ready_tail(body: Seq<char>, tail: Seq<StyledLine>) -> bool {
    let n = ansi_run_texts(body).len();
    &&& body_lines_spec(body, tail.take(n as int))
    &&& if trim_seq(body).len() == 0 {
        tail.len() == n + 1 && span_texts(tail[n as int]) == lines_seq(
            "(snapshot was empty after trim)"@,
        )
    } else if n == 0 {
        tail.len() == 1 && span_texts(tail[0]) == lines_seq(
            "(snapshot had no printable content after ANSI sanitize)"@,
        )
    } else {
        tail.len() == n
    }
}

/// The lines the preview panel shows for a target and the preview state. A pane's ready
/// screen and error message are shown without escape sequences.
pub fn preview_target_lines(
    preview_target: &PreviewTarget,
    snapshot_preview_state: &SnapshotPreviewState,
) -> (r: Vec<StyledLine>)
    ensures
        match preview_target@ {
            PreviewTargetView::PaneSnapshotCandidate {
                session_name,
                tab_id,
                tab_position,
                pane_id,
                source_freshness,
            } => {
                let q = PaneSnapshotRequestView { session_name, tab_id, tab_position, pane_id };
                match pane_state_texts(q, source_freshness, snapshot_preview_state@) {
                    Some(texts) => plain_texts(r@, texts),
                    None => match snapshot_preview_state@ {
                        SnapshotPreviewStateView::Ready { request, body } => {
                            &&& r@.len() >= 6
                            &&& plain_texts(
                                r@.take(6),
                                pane_heading("Pane snapshot"@, request) + seq!["snapshot body:"@],
                            )
                            &&& ready_tail(body, r@.skip(6))
                            &&& escape_free(r@.skip(6))
                        },
                        SnapshotPreviewStateView::Error { request, message } => {
                            &&& plain_texts(
                                r@.take(5),
                                pane_heading("Pane snapshot (error)"@, request),
                            )
                            &&& error_lines_spec(message, r@.skip(5))
                            &&& escape_free(r@.skip(5))
                        },
                        _ => false,
                    },
                }
            },
            _ => plain_texts(r@, summary_texts(preview_target@)),
        },
{
    match preview_target {
        PreviewTarget::SessionSummary { session_name, source_freshness } => {
            let session_line = concat2("session: ", session_name.as_str());
            let source_line = concat2("source: ", freshness_label(*source_freshness));
            let r = vec![
                StyledLine::plain("Session summary"),
                StyledLine::plain(session_line.as_str()),
                StyledLine::plain(source_line.as_str()),
                StyledLine::plain(""),
                StyledLine::plain("select a terminal pane to capture a snapshot"),
            ];
            proof {
                reveal_strlit("");
            }
            assert(plain_texts(r@, summary_texts(preview_target@)));
            r
        },
        PreviewTarget::TabSummary { session_name, tab_id, tab_position, source_freshness } => {
            let session_line = concat2("session: ", session_name.as_str());
            let id = u64_to_text(*tab_id);
            let position = u64_to_text(*tab_position);
            let tab_head = concat3("tab: id=", id.as_str(), ", position=");
            let tab_line = concat2(tab_head.as_str(), position.as_str());
            let source_line = concat2("source: ", freshness_label(*source_freshness));
            let r = vec![
                StyledLine::plain("Tab summary"),
                StyledLine::plain(session_line.as_str()),
                StyledLine::plain(tab_line.as_str()),
                StyledLine::plain(source_line.as_str()),
                StyledLine::plain(""),
                StyledLine::plain("select a terminal pane to capture a snapshot"),
            ];
            proof {
                reveal_strlit("");
            }
            assert(plain_texts(r@, summary_texts(preview_target@)));
            r
        },
        PreviewTarget::Unavailable { reason } => {
            let reason_line = concat2("reason: ", reason);
            let r = vec![
                StyledLine::plain("Preview unavailable"),
                StyledLine::plain(reason_line.as_str()),
                StyledLine::plain(""),
                StyledLine::plain("selection has no preview route"),
            ];
            proof {
                reveal_strlit("");
            }
            assert(plain_texts(r@, summary_texts(preview_target@)));
            r
        },
        PreviewTarget::PaneSnapshotCandidate {
            session_name,
            tab_id,
            tab_position,
            pane_id,
            source_freshness,
        } => {
            let target_request = PaneSnapshotRequest {
                session_name: session_name.clone(),
                tab_id: *tab_id,
                tab_position: *tab_position,
                pane_id: *pane_id,
            };
            match snapshot_preview_state {
                SnapshotPreviewState::Loading { request } => {
                    let details = vec![StyledLine::plain("fetching initial dump-screen output before near-live refresh...")];
                    let ghost texts = seq!["fetching initial dump-screen output before near-live refresh..."@];
                    assert(plain_texts(details@, texts));
                    let r = pane_snapshot_lines("Pane snapshot (loading)", request, details);
                    proof {
                        lemma_plain_concat(r@, pane_heading("Pane snapshot (loading)"@, request@), texts);
                    }
                    r
                },
                SnapshotPreviewState::Ready { request, body } => {
                    let rendered = render_snapshot_body_lines(body.as_str());
                    let rendered_line_count = rendered.lines.len();
                    let mut content_lines: Vec<StyledLine> = Vec::new();
                    content_lines.push(StyledLine::plain("snapshot body:"));
                    let ghost head = content_lines@;
                    let ghost body_lines = rendered.lines@;
                    let mut body_part = rendered.lines;
                    content_lines.append(&mut body_part);
                    proof {
                        reveal_strlit("(snapshot was empty after trim)");
                        reveal_strlit("(snapshot had no printable content after ANSI sanitize)");
                        assert(content_lines@.skip(1) =~= body_lines);
                        assert(escape_free(content_lines@.skip(1)));
                    }
                    if trim_str(body.as_str()).unicode_len() == 0 {
                        let ghost before = content_lines@;
                        let extra = literal_line("(snapshot was empty after trim)");
                        content_lines.push(extra);
                        assert(content_lines@.skip(1) =~= before.skip(1).push(extra));
                        proof {
                            lemma_escape_free_push(before.skip(1), extra);
                        }
                    } else if rendered_line_count == 0 {
                        let ghost before = content_lines@;
                        let extra = literal_line("(snapshot had no printable content after ANSI sanitize)");
                        content_lines.push(extra);
                        assert(content_lines@.skip(1) =~= before.skip(1).push(extra));
                        proof {
                            lemma_escape_free_push(before.skip(1), extra);
                        }
                    }
                    let ghost content = content_lines@;
                    assert(escape_free(content.skip(1)));
                    assert(content.skip(1).take(body_lines.len() as int) =~= body_lines);
                    assert(ready_tail(body@, content.skip(1)));
                    let r = pane_snapshot_lines("Pane snapshot", request, content_lines);
                    assert(r@.skip(6) =~= content.skip(1));
                    proof {
                        assert(r@.skip(6) =~= r@.skip(5).skip(1));
                        assert(r@.take(6) =~= r@.take(5).push(r@[5]));
                        assert(r@[5] == r@.skip(5)[0]);
                        assert(pane_heading("Pane snapshot"@, request@) + seq!["snapshot body:"@]
                            =~= pane_heading("Pane snapshot"@, request@).push("snapshot body:"@));
                    }
                    assert(r@.len() >= 6);
                    assert(escape_free(r@.skip(6)));
                    assert(plain_texts(
                        r@.take(6),
                        pane_heading("Pane snapshot"@, request@) + seq!["snapshot body:"@],
                    ));
                    r
                },
                SnapshotPreviewState::Empty { request } => {
                    let details = vec![StyledLine::plain("no visible pane content returned by dump-screen (near-live refresh continues)")];
                    let ghost texts = seq!["no visible pane content returned by dump-screen (near-live refresh continues)"@];
                    assert(plain_texts(details@, texts));
                    let r = pane_snapshot_lines("Pane snapshot (empty)", request, details);
                    proof {
                        lemma_plain_concat(r@, pane_heading("Pane snapshot (empty)"@, request@), texts);
                    }
                    r
                },
                SnapshotPreviewState::Error { request, message } => {
                    let details = sanitized_error_lines(message.as_str());
                    proof {
                        let stripped = strip_ansi_spec(message@);
                        law_stripped_text_has_no_escape(message@);
                        if stripped.len() == 0 {
                            reveal_strlit("(no error details available)");
                            crate::text::lemma_lines_keep_absent_char(no_error_details(), esc());
                            assert forall|i: int, k: int|
                                0 <= i < details@.len() && 0 <= k < details@[i].spans@.len() implies !(
                                #[trigger] details@[i].spans@[k]).content@.contains(esc()) by {
                                assert(span_texts(details@[0])[k] == details@[0].spans@[k].content@);
                            }
                        } else {
                            lemma_plain_lines_escape_free(stripped, details@);
                        }
                    }
                    let r = pane_snapshot_lines("Pane snapshot (error)", request, details);
                    assert(escape_free(r@.skip(5)));
                    r
                },
                SnapshotPreviewState::Stale { request } => {
                    let details = vec![StyledLine::plain("selection source is stale; move selection to refresh")];
                    let ghost texts = seq!["selection source is stale; move selection to refresh"@];
                    assert(plain_texts(details@, texts));
                    let r = pane_snapshot_lines("Pane snapshot (stale)", request, details);
                    proof {
                        lemma_plain_concat(r@, pane_heading("Pane snapshot (stale)"@, request@), texts);
                    }
                    r
                },
                SnapshotPreviewState::Unavailable { reason } => {
                    let source_line = concat2("source: ", freshness_label(*source_freshness));
                    let details = vec![
                        StyledLine::plain(source_line.as_str()),
                        StyledLine::plain(reason.as_str()),
                    ];
                    let ghost texts = seq![source_line@, reason@];
                    assert(plain_texts(details@, texts));
                    let r = pane_snapshot_lines("Pane snapshot unavailable", &target_request, details);
                    proof {
                        lemma_plain_concat(r@, pane_heading("Pane snapshot unavailable"@, target_request@), texts);
                    }
                    r
                },
            }
        },
    }
}

/// The text of a row of the navigation panel: two spaces per level, a bullet (`•` for a
/// selectable node, `·` for one that is not), a space and the label.
pub open spec fn row_text(depth: nat, selectable: bool, label: Seq<char>) -> Seq<char> {
    Seq::new(2 * depth, |i: int| ' ') + (if selectable {
        "•"@
    } else {
        "·"@
    }) + " "@ + label
}

/// The text of a row of the navigation panel.
pub fn navigation_row_text(item: &VisibleItem) -> (r: String)
    ensures
        r@ == row_text(item.depth as nat, item.selectable, item.label@),
{
    let mut indent: Vec<char> = Vec::new();
    let mut i: usize = 0;
    while i < item.depth
        invariant
            i <= item.depth,
            indent@ =~= Seq::new(2 * (i as nat), |j: int| ' '),
        decreases item.depth - i,
    {
        indent.push(' ');
        indent.push(' ');
        i = i + 1;
    }
    let indent_text = string_from_chars(indent.as_slice());
    let marker = if item.selectable {
        "•"
    } else {
        "·"
    };
    let head = concat3(indent_text.as_str(), marker, " ");
    concat2(head.as_str(), item.label.as_str())
}

/// How the status line is colored: a staged no-action warns, another staged action succeeds,
/// and without one the line is plain.
#[derive(Debug, Clone, Copy, PartialEq, Eq, Structural)]
pub enum StatusTone {
    Normal,
    Warn,
    Success,
}

/// The tone of the status line for a staged action.
pub open spec fn status_tone_spec(pending: Option<SelectionActionView>) -> StatusTone {
    match pending {
        Some(SelectionActionView::NoAction) => StatusTone::Warn,
        Some(_) => StatusTone::Success,
        None => StatusTone::Normal,
    }
}

/// The tone of the status line for a staged action.
pub fn status_tone(pending: Option<&SelectionAction>) -> (r: StatusTone)
    ensures
        r == status_tone_spec(
            match pending {
                Some(a) => Some(a@),
                None => None,
            },
        ),
{
    match pending {
        Some(SelectionAction::NoAction) => StatusTone::Warn,
        Some(_) => StatusTone::Success,
        None => StatusTone::Normal,
    }
}

/// The status line: the mode (`NAV` or `FILTER`), the number of rows, the filter (`-` when
/// empty, else `/` and the query) and the staged action (`none` when there is none).
pub open spec fn status_text_spec(
    mode: InputMode,
    visible_count: nat,
    filter: Seq<char>,
    pending: Option<SelectionActionView>,
) -> Seq<char> {
    let mode_text = match mode {
        InputMode::Navigate => "NAV"@,
        InputMode::Filter => "FILTER"@,
    };
    let filter_text = if filter.len() == 0 {
        "-"@
    } else {
        "/"@ + filter
    };
    let pending_text = match pending {
        Some(a) => action_text(a),
        None => "none"@,
    };
    mode_text + " rows:"@ + decimal_seq(visible_count) + " filter:"@ + filter_text + " pending:"@
        + pending_text
}

/// The status line.
pub fn status_text(
    mode: InputMode,
    visible_count: usize,
    filter_query: &str,
    pending: Option<&SelectionAction>,
) -> (r: String)
    ensures
        r@ == status_text_spec(
            mode,
            visible_count as nat,
            filter_query@,
            match pending {
                Some(a) => Some(a@),
                None => None,
            },
        ),
{
    let mode_text = match mode {
        InputMode::Navigate => "NAV",
        InputMode::Filter => "FILTER",
    };
    let filter_text = if filter_query.unicode_len() == 0 {
        "-".to_owned()
    } else {
        concat2("/", filter_query)
    };
    let pending_text = match pending {
        Some(action) => selection_action_summary(action),
        None => "none".to_owned(),
    };
    let count = u64_to_text(visible_count as u64);
    let a = concat3(mode_text, " rows:", count.as_str());
    let b = concat3(a.as_str(), " filter:", filter_text.as_str());
    concat3(b.as_str(), " pending:", pending_text.as_str())
}

} // verus!
