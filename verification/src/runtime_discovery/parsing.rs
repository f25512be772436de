//! Parsers for the output of `zellij list-sessions` and of the JSON listings of tabs and panes.

use vstd::prelude::*;

use crate::navigation_model::{first_index, lemma_first_index_is, lemma_first_index_none, str_eq};
use crate::runtime_discovery::json::{
    document_decodes, document_records, json_document, json_text_is_valid, parse_json_value,
    record_of_text, JsonError, JsonRecord,
};
use crate::runtime_discovery::models::{PaneInfo, SessionInfo, SessionState, TabInfo};
use crate::text::{concat2, concat3, chars_of, find_from, find_seq, lines_chars, lines_seq, lower_seq, lower_str, slice_chars, string_from_chars, trim_chars, trim_seq, trim_str, views};

verus! {

/// The mathematical value of a session record.
pub struct SessionInfoView {
    pub name: Seq<char>,
    pub created_age: Option<Seq<char>>,
    pub state: SessionState,
}

impl View for SessionInfo {
    type V = SessionInfoView;

    open spec fn view(&self) -> SessionInfoView {
        SessionInfoView {
            name: self.name@,
            created_age: match self.created_age {
                Some(a) => Some(a@),
                None => None,
            },
            state: self.state,
        }
    }
}

/// The marker that opens the creation age of a session line.
pub open spec fn created_marker() -> Seq<char> {
    " [Created "@
}

/// The state a session line's suffix (the text after the `]` of its creation age) reports:
/// trimmed and ASCII lower-cased, empty or `(active)` is active, `(current)` current,
/// `(exited - attach to resurrect)` exited, anything else unknown.
pub open spec fn session_state_spec(suffix: Seq<char>) -> SessionState {
    let normalized = lower_seq(trim_seq(suffix));
    if normalized.len() == 0 || normalized == "(active)"@ {
        SessionState::Active
    } else if normalized == "(current)"@ {
        SessionState::Current
    } else if normalized == "(exited - attach to resurrect)"@ {
        SessionState::Exited
    } else {
        SessionState::Unknown
    }
}

/// The record of one (trimmed, non-empty) session line, or `None` when the line opens a
/// creation age that no `]` closes. A line `<name> [Created <age>]<suffix>` gives the trimmed
/// name, the age and the state of the suffix; a line without the marker is all name, with no
/// age and an unknown state.
pub open spec fn session_line_spec(line: Seq<char>) -> Option<SessionInfoView> {
    let i = find_seq(line, created_marker());
    if i < 0 {
        Some(SessionInfoView { name: line, created_age: None, state: SessionState::Unknown })
    } else {
        let rest = line.skip(i + created_marker().len());
        let j = find_seq(rest, "]"@);
        if j < 0 {
            None
        } else {
            Some(
                SessionInfoView {
                    name: trim_seq(line.take(i)),
                    created_age: Some(rest.take(j)),
                    state: session_state_spec(rest.skip(j + 1)),
                },
            )
        }
    }
}

/// The record lines of a listing: its lines, trimmed, without the empty ones.
pub open spec fn nonblank_lines(raw: Seq<char>) -> Seq<Seq<char>> {
    lines_seq(raw).map_values(trim_fn()).filter(nonblank())
}

/// Trimming of one line.
pub open spec fn trim_fn() -> spec_fn(Seq<char>) -> Seq<char> {
    |l: Seq<char>| trim_seq(l)
}

/// The line is not empty.
pub open spec fn nonblank() -> spec_fn(Seq<char>) -> bool {
    |l: Seq<char>| l.len() > 0
}

/// The line is not a well-formed session line.
pub open spec fn malformed_session_line() -> spec_fn(Seq<char>) -> bool {
    |l: Seq<char>| session_line_spec(l) is None
}

/// Filtering a prefix gives a prefix of the filtered whole.
pub proof fn lemma_filter_prefix<A>(s: Seq<A>, k: int, pred: spec_fn(A) -> bool)
    requires
        0 <= k <= s.len(),
    ensures
        s.take(k).filter(pred).len() <= s.filter(pred).len(),
        forall|i: int|
            0 <= i < s.take(k).filter(pred).len() ==> #[trigger] s.filter(pred)[i] == s.take(
                k,
            ).filter(pred)[i],
    decreases s.len(),
{
    reveal(Seq::filter);
    if k < s.len() {
        lemma_filter_prefix(s.drop_last(), k, pred);
        assert(s.drop_last().take(k) =~= s.take(k));
        s.drop_last().lemma_filter_push(s.last(), pred);
        assert(s.drop_last().push(s.last()) =~= s);
    } else {
        assert(s.take(k) =~= s);
    }
}

/// A parse failure.
#[derive(Debug)]
pub enum ParseError {
    /// A session line opens a creation age that no `]` closes.
    InvalidSessionLine { line: String },
    /// Output that should be JSON is not, or does not have the expected shape.
    InvalidJson { context: &'static str, source: crate::runtime_discovery::json::JsonError },
}

/// The state reported by a session line's suffix.
pub fn parse_session_state(suffix: &str) -> (r: SessionState)
    ensures
        r == session_state_spec(suffix@),
{
    let trimmed = trim_str(suffix);
    let normalized = lower_str(trimmed.as_str());
    if normalized.unicode_len() == 0 || str_eq(normalized.as_str(), "(active)") {
        SessionState::Active
    } else if str_eq(normalized.as_str(), "(current)") {
        SessionState::Current
    } else if str_eq(normalized.as_str(), "(exited - attach to resurrect)") {
        SessionState::Exited
    } else {
        SessionState::Unknown
    }
}

/// The record of one trimmed, non-empty session line.
pub fn parse_session_line(line: &str) -> (r: Result<SessionInfo, ParseError>)
    ensures
        match r {
            Ok(info) => session_line_spec(line@) == Some(info@),
            Err(ParseError::InvalidSessionLine { line: l }) => session_line_spec(line@) is None
                && l@ == line@,
            Err(_) => false,
        },
{
    let cs = chars_of(line);
    let marker = chars_of(" [Created ");
    let close = chars_of("]");
    proof {
        reveal_strlit("]");
    }
    assert(cs@.skip(0) =~= cs@);
    match find_from(cs.as_slice(), marker.as_slice(), 0) {
        None => Ok(SessionInfo { name: line.to_owned(), created_age: None, state: SessionState::Unknown }),
        Some(i) => {
            assert(i + marker@.len() <= cs@.len());
            let start = i + marker.len();
            let ghost rest = cs@.skip(start as int);
            match find_from(cs.as_slice(), close.as_slice(), start) {
                None => Err(ParseError::InvalidSessionLine { line: line.to_owned() }),
                Some(j) => {
                    assert(close@ == "]"@);
                    assert(close@.len() == 1);
                    assert(j + 1 <= cs@.len());
                    let name_chars = slice_chars(cs.as_slice(), 0, i);
                    let name_trimmed = trim_chars(name_chars.as_slice());
                    let age_chars = slice_chars(cs.as_slice(), start, j);
                    let suffix_chars = slice_chars(cs.as_slice(), j + 1, cs.len());
                    let suffix = string_from_chars(suffix_chars.as_slice());
                    proof {
                        assert(cs@.take(i as int) =~= name_chars@);
                        assert(rest.take(j - start) =~= age_chars@);
                        assert(rest.skip(j - start + 1) =~= suffix_chars@);
                    }
                    Ok(SessionInfo {
                        name: string_from_chars(name_trimmed.as_slice()),
                        created_age: Some(string_from_chars(age_chars.as_slice())),
                        state: parse_session_state(suffix.as_str()),
                    })
                },
            }
        },
    }
}

/// The lines of a text, trimmed, without the empty ones.
pub fn nonblank_line_texts(raw: &str) -> (r: Vec<String>)
    ensures
        r@.map_values(|x: String| x@) == nonblank_lines(raw@),
{
    let cs = chars_of(raw);
    let all = lines_chars(cs.as_slice());
    let ghost ls = lines_seq(raw@);
    let ghost trims = ls.map_values(trim_fn());
    let mut out: Vec<String> = Vec::new();
    let mut k: usize = 0;
    assert(trims.take(0).filter(nonblank()) =~= seq![]) by {
        reveal(Seq::filter);
    }
    assert(out@.map_values(|x: String| x@) =~= seq![]);
    while k < all.len()
        invariant
            views(all@) == ls,
            ls == lines_seq(raw@),
            trims == ls.map_values(trim_fn()),
            k <= ls.len(),
            out@.map_values(|x: String| x@) == trims.take(k as int).filter(nonblank()),
        decreases all.len() - k,
    {
        assert(trims.take(k + 1) =~= trims.take(k as int).push(trims[k as int]));
        assert(all@[k as int]@ == ls[k as int]);
        let trimmed = trim_chars(all[k].as_slice());
        proof {
            trims.take(k as int).lemma_filter_push(trims[k as int], nonblank());
        }
        if trimmed.len() > 0 {
            let line = string_from_chars(trimmed.as_slice());
            let ghost before = out@;
            out.push(line);
            assert(out@.map_values(|x: String| x@) =~= before.map_values(|x: String| x@).push(line@));
        }
        k = k + 1;
    }
    assert(trims.take(ls.len() as int) =~= trims);
    out
}

/// `r` is what a session listing gives: one record per non-empty line, each the record of its
/// line, or, when a line is malformed, that first malformed line.
pub open spec fn sessions_parsed(raw: Seq<char>, r: Result<Vec<SessionInfo>, ParseError>) -> bool {
    let lines = nonblank_lines(raw);
    let bad = first_index(lines, malformed_session_line());
    match r {
        Ok(v) => bad < 0 && v@.len() == lines.len() && forall|i: int|
            0 <= i < lines.len() ==> session_line_spec(lines[i]) == Some(#[trigger] v@[i]@),
        Err(ParseError::InvalidSessionLine { line }) => bad >= 0 && line@ == lines[bad],
        Err(_) => false,
    }
}

/// The session records of a `zellij list-sessions --no-formatting` listing, one per non-empty
/// line; the first malformed line fails the whole listing.
pub fn parse_sessions_output(raw: &str) -> (r: Result<Vec<SessionInfo>, ParseError>)
    ensures
        sessions_parsed(raw@, r),
{
    let lines = nonblank_line_texts(raw);
    let ghost ls = nonblank_lines(raw@);
    let mut out: Vec<SessionInfo> = Vec::new();
    let mut k: usize = 0;
    while k < lines.len()
        invariant
            lines@.map_values(|x: String| x@) == ls,
            ls == nonblank_lines(raw@),
            k <= ls.len(),
            out@.len() == k,
            forall|i: int| 0 <= i < k ==> session_line_spec(ls[i]) == Some(#[trigger] out@[i]@),
        decreases lines.len() - k,
    {
        assert(lines@[k as int]@ == ls[k as int]);
        match parse_session_line(lines[k].as_str()) {
            Ok(info) => {
                out.push(info);
            },
            Err(e) => {
                assert(malformed_session_line()(ls[k as int]));
                assert(match e {
                    ParseError::InvalidSessionLine { line } => line@ == ls[k as int],
                    _ => false,
                });
                proof {
                    assert forall|j: int| 0 <= j < k implies !malformed_session_line()(
                        #[trigger] ls[j],
                    ) by {
                        assert(session_line_spec(ls[j]) == Some(out@[j]@));
                    }
                    lemma_first_index_is(ls, malformed_session_line(), k as int);
                }
                return Err(e);
            },
        }
        k = k + 1;
    }
    proof {
        assert forall|j: int| 0 <= j < ls.len() implies !malformed_session_line()(
            #[trigger] ls[j],
        ) by {
            assert(session_line_spec(ls[j]) == Some(out@[j]@));
        }
        lemma_first_index_none(ls, malformed_session_line());
    }
    Ok(out)
}

/// The outcome failed.
pub open spec fn failed<T>() -> spec_fn(Result<T, JsonError>) -> bool {
    |o: Result<T, JsonError>| o is Err
}

/// `r` is what a listing gives when its whole text decoded to `whole` (or did not, `None`)
/// and its non-empty lines, one by one, to `outcomes`: the whole text's records when there
/// are any; else the records of all lines when every line decoded (none at all for a text
/// without a non-empty line); else the first line failure, under the listing's `context`.
pub open spec fn records_match<T>(
    r: Result<Vec<T>, ParseError>,
    whole: Option<Vec<T>>,
    outcomes: Seq<Result<T, JsonError>>,
    context: &'static str,
) -> bool {
    match whole {
        Some(items) => r matches Ok(v) && v@ == items@,
        None => {
            let k = first_index(outcomes, failed::<T>());
            if k < 0 {
                &&& r matches Ok(v)
                &&& v@.len() == outcomes.len()
                &&& forall|i: int|
                    0 <= i < outcomes.len() ==> outcomes[i] == Ok::<T, JsonError>(#[trigger] v@[i])
            } else {
                &&& r matches Err(ParseError::InvalidJson { context: c, source })
                &&& c == context
                &&& outcomes[k] == Err::<T, JsonError>(source)
            }
        },
    }
}

/// `o` is what decoding one line gives: a syntax error exactly when the line is not one
/// JSON document, else what its document decodes to as a record.
pub open spec fn line_outcome<T: JsonRecord>(line: Seq<char>, o: Result<T, JsonError>) -> bool {
    &&& (o matches Err(JsonError::Syntax(_))) <==> !json_text_is_valid(line)
    &&& json_text_is_valid(line) ==> match o {
        Ok(t) => T::decodes(json_document(line), Ok(t)),
        Err(JsonError::Schema(e)) => T::decodes(json_document(line), Err(e)),
        Err(JsonError::Syntax(_)) => false,
    }
}

/// `whole` and `outcomes` are what decoding a listing text gives: the records of the whole
/// text when it is one JSON document (`None` when it is not, or is not an array of such
/// records), and the outcome of each non-empty line.
pub open spec fn listing_outcomes<T: JsonRecord>(
    raw: Seq<char>,
    whole: Option<Vec<T>>,
    outcomes: Seq<Result<T, JsonError>>,
) -> bool {
    let lines = nonblank_lines(raw);
    &&& json_text_is_valid(raw) ==> document_decodes(json_document(raw), whole)
    &&& !json_text_is_valid(raw) ==> whole is None
    &&& outcomes.len() == lines.len()
    &&& forall|i: int| 0 <= i < lines.len() ==> line_outcome(lines[i], #[trigger] outcomes[i])
}

/// `r` is what a JSON listing `raw` gives under `context`, from what its whole text and its
/// non-empty lines decode to.
pub open spec fn records_parsed<T: JsonRecord>(
    raw: Seq<char>,
    r: Result<Vec<T>, ParseError>,
    context: &'static str,
) -> bool {
    exists|whole: Option<Vec<T>>, outcomes: Seq<Result<T, JsonError>>|
        #[trigger] listing_outcomes(raw, whole, outcomes) && records_match(
            r,
            whole,
            outcomes,
            context,
        )
}

/// What a listing gives from the decoding of its whole text and of its lines.
pub fn assemble_records<T>(
    whole: Option<Vec<T>>,
    outcomes: Vec<Result<T, JsonError>>,
    context: &'static str,
) -> (r: Result<Vec<T>, ParseError>)
    ensures
        records_match(r, whole, outcomes@, context),
{
    if let Some(items) = whole {
        return Ok(items);
    }
    assert(whole is None);
    let ghost all = outcomes@;
    assert(all.len() == outcomes.len());
    let mut rest = outcomes;
    let mut out: Vec<T> = Vec::new();
    let mut k: usize = 0;
    while rest.len() > 0
        invariant
            rest@ == all.skip(k as int),
            all == outcomes@,
            all.len() <= usize::MAX,
            whole is None,
            k <= all.len(),
            out@.len() == k,
            forall|i: int| 0 <= i < k ==> all[i] == Ok::<T, JsonError>(#[trigger] out@[i]),
        decreases rest.len(),
    {
        assert(k < all.len());
        let ghost before = rest@;
        let o = rest.remove(0);
        assert(o == all[k as int]);
        assert(rest@ =~= all.skip(k + 1));
        match o {
            Ok(t) => {
                out.push(t);
            },
            Err(source) => {
                proof {
                    assert forall|j: int| 0 <= j < k implies !failed::<T>()(#[trigger] all[j]) by {
                        assert(all[j] == Ok::<T, JsonError>(out@[j]));
                    }
                    lemma_first_index_is(all, failed::<T>(), k as int);
                    assert(all[k as int] == Err::<T, JsonError>(source));
                }
                return Err(ParseError::InvalidJson { context, source });
            },
        }
        k = k + 1;
    }
    proof {
        assert(k == all.len());
        assert forall|j: int| 0 <= j < all.len() implies !failed::<T>()(#[trigger] all[j]) by {
            assert(all[j] == Ok::<T, JsonError>(out@[j]));
        }
        lemma_first_index_none(all, failed::<T>());
    }
    Ok(out)
}

/// The records of a listing: the whole text as one JSON array of records, or else, one
/// record per non-empty line.
pub fn parse_json_items<T: JsonRecord>(raw: &str, context: &'static str) -> (r: Result<
    Vec<T>,
    ParseError,
>)
    ensures
        records_parsed(raw@, r, context),
{
    let whole: Option<Vec<T>> = match parse_json_value(raw) {
        Ok(doc) => document_records(&doc),
        Err(_) => None,
    };
    let lines = nonblank_line_texts(raw);
    let ghost ls = nonblank_lines(raw@);
    let mut outcomes: Vec<Result<T, JsonError>> = Vec::new();
    let mut k: usize = 0;
    while k < lines.len()
        invariant
            lines@.map_values(|x: String| x@) == ls,
            k <= ls.len(),
            outcomes@.len() == k,
            forall|i: int| 0 <= i < k ==> line_outcome(ls[i], #[trigger] outcomes@[i]),
        decreases lines.len() - k,
    {
        assert(lines@[k as int]@ == ls[k as int]);
        let o = record_of_text(lines[k].as_str());
        outcomes.push(o);
        k = k + 1;
    }
    let ghost w = whole;
    let ghost os = outcomes@;
    let r = assemble_records(whole, outcomes, context);
    assert(listing_outcomes(raw@, w, os));
    r
}

/// The tab records of a `zellij action list-tabs --json --all` listing.
pub fn parse_tabs_output(raw: &str) -> (r: Result<Vec<TabInfo>, ParseError>)
    ensures
        records_parsed(raw@, r, "list-tabs"),
{
    parse_json_items(raw, "list-tabs")
}

/// The pane records of a `zellij action list-panes --json --all` listing.
pub fn parse_panes_output(raw: &str) -> (r: Result<Vec<PaneInfo>, ParseError>)
    ensures
        records_parsed(raw@, r, "list-panes"),
{
    parse_json_items(raw, "list-panes")
}

impl ParseError {
    /// The message that explains the failure.
    pub fn message(&self) -> (r: String)
        ensures
            self matches ParseError::InvalidSessionLine { line } ==> r@
                == "unexpected session line format: `"@ + line@ + "`"@,
            self matches ParseError::InvalidJson { context, source } ==> (source matches JsonError::Schema(e)
                ==> r@ == "invalid json for "@ + context@ + ": "@
                + crate::runtime_discovery::json::schema_text(*e)),
    {
        match self {
            ParseError::InvalidSessionLine { line } => concat3(
                "unexpected session line format: `",
                line.as_str(),
                "`",
            ),
            ParseError::InvalidJson { context, source } => {
                let head = concat3("invalid json for ", context, ": ");
                let detail = source.message();
                concat2(head.as_str(), detail.as_str())
            },
        }
    }
}

} // verus!
