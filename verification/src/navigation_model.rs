//! The session -> tab -> pane navigation tree: stable node identities, flattening
//! with case-insensitive filtering, and resolution of preview targets and
//! selection actions.

use vstd::prelude::*;

use crate::runtime_discovery::{PaneInfo, SessionInfo, SessionState, TabInfo};
use crate::text::{find_seq, lemma_lower_idempotent, lemma_lower_upper, lemma_trim_lower, lemma_trim_padded, upper_seq, chars_of, contains_seq, decimal_seq, lower_seq, opt_text, trim_seq, u64_to_text, lower_str, trim_str, str_contains, str_is_empty};

verus! {

/// Where the data of a node came from.
#[derive(Debug, Clone, Copy, PartialEq, Eq, Structural)]
pub enum SourceFreshness {
    Runtime,
    Subscription,
    Cache,
    Stale,
    Error,
}

impl Default for SourceFreshness {
    fn default() -> (r: Self)
        ensures
            r == SourceFreshness::Runtime,
    {
        SourceFreshness::Runtime
    }
}

/// Terminal panes and plugin panes share the id space, so the kind is part of a pane's identity.
#[derive(Debug, Clone, Copy, PartialEq, Eq, Structural, Hash)]
pub enum PaneKind {
    Terminal,
    Plugin,
}

/// The filter token of a pane kind.
pub open spec fn pane_kind_token(kind: PaneKind) -> Seq<char> {
    match kind {
        PaneKind::Terminal => "terminal"@,
        PaneKind::Plugin => "plugin"@,
    }
}

impl PaneKind {
    /// Plugin panes are those the record marks as plugins; all others are terminals.
    pub fn from_pane_info(pane: &PaneInfo) -> (r: Self)
        ensures
            r == (if pane.is_plugin {
                PaneKind::Plugin
            } else {
                PaneKind::Terminal
            }),
    {
        if pane.is_plugin {
            PaneKind::Plugin
        } else {
            PaneKind::Terminal
        }
    }

    /// The word that filtering matches for this kind.
    pub fn as_filter_token(self) -> (r: &'static str)
        ensures
            r@ == pane_kind_token(self),
    {
        match self {
            PaneKind::Terminal => "terminal",
            PaneKind::Plugin => "plugin",
        }
    }
}

/// The identity of a node in the tree. Tabs are identified by session and tab id, panes by
/// session, tab id, pane id and kind; the tab position is carried along but is no part of
/// the identity, so an identity survives a reordering of tabs.
#[derive(Debug)]
pub enum NodeId {
    Session { session_name: String },
    Tab { session_name: String, tab_id: u64, tab_position: u64 },
    Pane { session_name: String, tab_id: u64, tab_position: u64, pane_id: u64, pane_kind: PaneKind },
}

/// The mathematical value of a node identity.
pub enum NodeIdView {
    Session { session_name: Seq<char> },
    Tab { session_name: Seq<char>, tab_id: u64, tab_position: u64 },
    Pane {
        session_name: Seq<char>,
        tab_id: u64,
        tab_position: u64,
        pane_id: u64,
        pane_kind: PaneKind,
    },
}

impl View for NodeId {
    type V = NodeIdView;

    open spec fn view(&self) -> NodeIdView {
        match self {
            NodeId::Session { session_name } => NodeIdView::Session { session_name: session_name@ },
            NodeId::Tab { session_name, tab_id, tab_position } => NodeIdView::Tab {
                session_name: session_name@,
                tab_id: *tab_id,
                tab_position: *tab_position,
            },
            NodeId::Pane { session_name, tab_id, tab_position, pane_id, pane_kind } =>
                NodeIdView::Pane {
                session_name: session_name@,
                tab_id: *tab_id,
                tab_position: *tab_position,
                pane_id: *pane_id,
                pane_kind: *pane_kind,
            },
        }
    }
}

/// Two identities name the same node: same variant, equal in every field but the tab position.
pub open spec fn same_node(a: NodeIdView, b: NodeIdView) -> bool {
    match (a, b) {
        (NodeIdView::Session { session_name: l }, NodeIdView::Session { session_name: r }) => l
            == r,
        (
            NodeIdView::Tab { session_name: ls, tab_id: lt, .. },
            NodeIdView::Tab { session_name: rs, tab_id: rt, .. },
        ) => ls == rs && lt == rt,
        (
            NodeIdView::Pane { session_name: ls, tab_id: lt, pane_id: lp, pane_kind: lk, .. },
            NodeIdView::Pane { session_name: rs, tab_id: rt, pane_id: rp, pane_kind: rk, .. },
        ) => ls == rs && lt == rt && lp == rp && lk == rk,
        _ => false,
    }
}

/// Whether two texts are equal.
pub fn str_eq(a: &str, b: &str) -> (r: bool)
    ensures
        r == (a@ == b@),
{
    let x = chars_of(a);
    let y = chars_of(b);
    if x.len() != y.len() {
        return false;
    }
    let mut i: usize = 0;
    while i < x.len()
        invariant
            x@ == a@,
            y@ == b@,
            x@.len() == y@.len(),
            i <= x@.len(),
            forall|j: int| 0 <= j < i ==> x@[j] == y@[j],
        decreases x.len() - i,
    {
        if x[i] != y[i] {
            return false;
        }
        i = i + 1;
    }
    assert(x@ =~= y@);
    true
}

impl PartialEq for NodeId {
    fn eq(&self, other: &Self) -> (r: bool) {
        match self {
            NodeId::Session { session_name: ls } => match other {
                NodeId::Session { session_name: rs } => str_eq(ls.as_str(), rs.as_str()),
                _ => false,
            },
            NodeId::Tab { session_name: ls, tab_id: lt, .. } => match other {
                NodeId::Tab { session_name: rs, tab_id: rt, .. } => *lt == *rt && str_eq(
                    ls.as_str(),
                    rs.as_str(),
                ),
                _ => false,
            },
            NodeId::Pane { session_name: ls, tab_id: lt, pane_id: lp, pane_kind: lk, .. } =>
                match other {
                NodeId::Pane { session_name: rs, tab_id: rt, pane_id: rp, pane_kind: rk, .. } =>
                    *lt == *rt && *lp == *rp && *lk == *rk && str_eq(ls.as_str(), rs.as_str()),
                _ => false,
            },
        }
    }
}

impl vstd::std_specs::cmp::PartialEqSpecImpl for NodeId {
    open spec fn obeys_eq_spec() -> bool {
        true
    }

    open spec fn eq_spec(&self, other: &NodeId) -> bool {
        same_node(self@, other@)
    }
}

impl Eq for NodeId {

}

impl Clone for NodeId {
    fn clone(&self) -> (r: Self)
        ensures
            r@ == self@,
    {
        match self {
            NodeId::Session { session_name } => NodeId::Session {
                session_name: session_name.clone(),
            },
            NodeId::Tab { session_name, tab_id, tab_position } => NodeId::Tab {
                session_name: session_name.clone(),
                tab_id: *tab_id,
                tab_position: *tab_position,
            },
            NodeId::Pane { session_name, tab_id, tab_position, pane_id, pane_kind } =>
                NodeId::Pane {
                session_name: session_name.clone(),
                tab_id: *tab_id,
                tab_position: *tab_position,
                pane_id: *pane_id,
                pane_kind: *pane_kind,
            },
        }
    }
}

/// The parts of an identity that `==` compares, in a fixed shape: a tag for the kind of
/// node, the session, the tab id, and the pane id and kind (zero and `None` where a kind of
/// node has none).
pub open spec fn identity_key_spec(id: NodeIdView) -> (u8, Seq<char>, u64, u64, Option<PaneKind>) {
    match id {
        NodeIdView::Session { session_name } => (0u8, session_name, 0u64, 0u64, None),
        NodeIdView::Tab { session_name, tab_id, .. } => (1u8, session_name, tab_id, 0u64, None),
        NodeIdView::Pane { session_name, tab_id, pane_id, pane_kind, .. } => (
            2u8,
            session_name,
            tab_id,
            pane_id,
            Some(pane_kind),
        ),
    }
}

impl NodeId {
    /// The parts of the identity that `==` compares.
    pub fn identity_key(&self) -> (r: (u8, String, u64, u64, Option<PaneKind>))
        ensures
            (r.0, r.1@, r.2, r.3, r.4) == identity_key_spec(self@),
    {
        match self {
            NodeId::Session { session_name } => (0u8, session_name.clone(), 0u64, 0u64, None),
            NodeId::Tab { session_name, tab_id, .. } => (
                1u8,
                session_name.clone(),
                *tab_id,
                0u64,
                None,
            ),
            NodeId::Pane { session_name, tab_id, pane_id, pane_kind, .. } => (
                2u8,
                session_name.clone(),
                *tab_id,
                *pane_id,
                Some(*pane_kind),
            ),
        }
    }
}

/// Equal identities have equal keys, so hashing the key hashes equal identities alike.
pub proof fn law_equal_identities_have_equal_keys(a: NodeIdView, b: NodeIdView)
    requires
        same_node(a, b),
    ensures
        identity_key_spec(a) == identity_key_spec(b),
{
}

/// `Hash::hash` of an identity key (a tuple of `u8`, `String`, `u64`, `u64` and
/// `Option<PaneKind>`): feeds its fields to the hasher in order.
#[verifier::external_body]
fn hash_identity_key<H: core::hash::Hasher>(key: &(u8, String, u64, u64, Option<PaneKind>), state: &mut H) {
    core::hash::Hash::hash(key, state)
}

impl core::hash::Hash for NodeId {
    /// Hashes the parts of the identity that `==` compares, so equal identities hash alike.
    fn hash<H: core::hash::Hasher>(&self, state: &mut H) {
        let key = self.identity_key();
        hash_identity_key(&key, state);
    }
}


/// One row of the flattened tree.
#[derive(Debug, Clone)]
pub struct VisibleItem {
    pub depth: usize,
    pub label: String,
    pub node_id: NodeId,
    pub selectable: bool,
    pub filter_text: String,
}

/// What the preview panel shows for a selected node.
#[derive(Debug, Clone)]
pub enum PreviewTarget {
    SessionSummary { session_name: String, source_freshness: SourceFreshness },
    TabSummary {
        session_name: String,
        tab_id: u64,
        tab_position: u64,
        source_freshness: SourceFreshness,
    },
    PaneSnapshotCandidate {
        session_name: String,
        tab_id: u64,
        tab_position: u64,
        pane_id: u64,
        source_freshness: SourceFreshness,
    },
    Unavailable { reason: &'static str },
}

/// The mathematical value of a preview target.
pub enum PreviewTargetView {
    SessionSummary { session_name: Seq<char>, source_freshness: SourceFreshness },
    TabSummary {
        session_name: Seq<char>,
        tab_id: u64,
        tab_position: u64,
        source_freshness: SourceFreshness,
    },
    PaneSnapshotCandidate {
        session_name: Seq<char>,
        tab_id: u64,
        tab_position: u64,
        pane_id: u64,
        source_freshness: SourceFreshness,
    },
    Unavailable { reason: Seq<char> },
}

impl View for PreviewTarget {
    type V = PreviewTargetView;

    open spec fn view(&self) -> PreviewTargetView {
        match self {
            PreviewTarget::SessionSummary { session_name, source_freshness } =>
                PreviewTargetView::SessionSummary {
                session_name: session_name@,
                source_freshness: *source_freshness,
            },
            PreviewTarget::TabSummary { session_name, tab_id, tab_position, source_freshness } =>
                PreviewTargetView::TabSummary {
                session_name: session_name@,
                tab_id: *tab_id,
                tab_position: *tab_position,
                source_freshness: *source_freshness,
            },
            PreviewTarget::PaneSnapshotCandidate {
                session_name,
                tab_id,
                tab_position,
                pane_id,
                source_freshness,
            } => PreviewTargetView::PaneSnapshotCandidate {
                session_name: session_name@,
                tab_id: *tab_id,
                tab_position: *tab_position,
                pane_id: *pane_id,
                source_freshness: *source_freshness,
            },
            PreviewTarget::Unavailable { reason } => PreviewTargetView::Unavailable {
                reason: reason@,
            },
        }
    }
}

impl PartialEq for PreviewTarget {
    fn eq(&self, other: &Self) -> (r: bool) {
        match self {
            PreviewTarget::SessionSummary { session_name: a, source_freshness: f } => match other {
                PreviewTarget::SessionSummary { session_name: b, source_freshness: g } => *f == *g
                    && str_eq(a.as_str(), b.as_str()),
                _ => false,
            },
            PreviewTarget::TabSummary {
                session_name: a,
                tab_id: t,
                tab_position: p,
                source_freshness: f,
            } => match other {
                PreviewTarget::TabSummary {
                    session_name: b,
                    tab_id: u,
                    tab_position: q,
                    source_freshness: g,
                } => *t == *u && *p == *q && *f == *g && str_eq(a.as_str(), b.as_str()),
                _ => false,
            },
            PreviewTarget::PaneSnapshotCandidate {
                session_name: a,
                tab_id: t,
                tab_position: p,
                pane_id: i,
                source_freshness: f,
            } => match other {
                PreviewTarget::PaneSnapshotCandidate {
                    session_name: b,
                    tab_id: u,
                    tab_position: q,
                    pane_id: j,
                    source_freshness: g,
                } => *t == *u && *p == *q && *i == *j && *f == *g && str_eq(
                    a.as_str(),
                    b.as_str(),
                ),
                _ => false,
            },
            PreviewTarget::Unavailable { reason: a } => match other {
                PreviewTarget::Unavailable { reason: b } => str_eq(a, b),
                _ => false,
            },
        }
    }
}

impl vstd::std_specs::cmp::PartialEqSpecImpl for PreviewTarget {
    open spec fn obeys_eq_spec() -> bool {
        true
    }

    open spec fn eq_spec(&self, other: &PreviewTarget) -> bool {
        self@ == other@
    }
}

impl Eq for PreviewTarget {

}

/// What `Enter` stages for a selected node; nothing is executed.
#[derive(Debug, Clone)]
pub enum SelectionAction {
    SwitchSession { session_name: String },
    SwitchTab { session_name: String, tab_id: u64, tab_position: u64 },
    FocusPane { session_name: String, tab_id: u64, tab_position: u64, pane_id: u64 },
    NoAction,
}

/// The mathematical value of a selection action.
pub enum SelectionActionView {
    SwitchSession { session_name: Seq<char> },
    SwitchTab { session_name: Seq<char>, tab_id: u64, tab_position: u64 },
    FocusPane { session_name: Seq<char>, tab_id: u64, tab_position: u64, pane_id: u64 },
    NoAction,
}

impl View for SelectionAction {
    type V = SelectionActionView;

    open spec fn view(&self) -> SelectionActionView {
        match self {
            SelectionAction::SwitchSession { session_name } => SelectionActionView::SwitchSession {
                session_name: session_name@,
            },
            SelectionAction::SwitchTab { session_name, tab_id, tab_position } =>
                SelectionActionView::SwitchTab {
                session_name: session_name@,
                tab_id: *tab_id,
                tab_position: *tab_position,
            },
            SelectionAction::FocusPane { session_name, tab_id, tab_position, pane_id } =>
                SelectionActionView::FocusPane {
                session_name: session_name@,
                tab_id: *tab_id,
                tab_position: *tab_position,
                pane_id: *pane_id,
            },
            SelectionAction::NoAction => SelectionActionView::NoAction,
        }
    }
}

impl PartialEq for SelectionAction {
    fn eq(&self, other: &Self) -> (r: bool) {
        match self {
            SelectionAction::SwitchSession { session_name: a } => match other {
                SelectionAction::SwitchSession { session_name: b } => str_eq(a.as_str(), b.as_str()),
                _ => false,
            },
            SelectionAction::SwitchTab { session_name: a, tab_id: t, tab_position: p } =>
                match other {
                SelectionAction::SwitchTab { session_name: b, tab_id: u, tab_position: q } => *t
                    == *u && *p == *q && str_eq(a.as_str(), b.as_str()),
                _ => false,
            },
            SelectionAction::FocusPane { session_name: a, tab_id: t, tab_position: p, pane_id: i } =>
                match other {
                SelectionAction::FocusPane {
                    session_name: b,
                    tab_id: u,
                    tab_position: q,
                    pane_id: j,
                } => *t == *u && *p == *q && *i == *j && str_eq(a.as_str(), b.as_str()),
                _ => false,
            },
            SelectionAction::NoAction => match other {
                SelectionAction::NoAction => true,
                _ => false,
            },
        }
    }
}

impl vstd::std_specs::cmp::PartialEqSpecImpl for SelectionAction {
    open spec fn obeys_eq_spec() -> bool {
        true
    }

    open spec fn eq_spec(&self, other: &SelectionAction) -> bool {
        self@ == other@
    }
}

impl Eq for SelectionAction {

}

/// A pane of a tab.
#[derive(Debug, Clone)]
pub struct PaneNode {
    pub node_id: NodeId,
    pub pane_id: u64,
    pub pane_kind: PaneKind,
    pub title: Option<String>,
    pub terminal_command: Option<String>,
    pub pane_command: Option<String>,
    pub pane_cwd: Option<String>,
    pub selectable: bool,
    pub source_freshness: SourceFreshness,
    pub filter_text: String,
}

/// A tab of a session, with its panes.
#[derive(Debug, Clone)]
pub struct TabNode {
    pub node_id: NodeId,
    pub tab_id: u64,
    pub tab_position: u64,
    pub name: String,
    pub active: bool,
    pub panes: Vec<PaneNode>,
    pub source_freshness: SourceFreshness,
    pub filter_text: String,
}

/// A session, with its tabs.
#[derive(Debug, Clone)]
pub struct SessionNode {
    pub node_id: NodeId,
    pub name: String,
    pub created_age: Option<String>,
    pub state: SessionState,
    pub tabs: Vec<TabNode>,
    pub source_freshness: SourceFreshness,
    pub filter_text: String,
}

/// The navigation tree.
#[derive(Debug, Clone)]
pub struct NavigationModel {
    pub sessions: Vec<SessionNode>,
}

/// The records of one session, with the freshness of their source.
#[derive(Debug, Clone)]
pub struct SessionScopedData {
    pub session: SessionInfo,
    pub tabs: Vec<TabInfo>,
    pub panes: Vec<PaneInfo>,
    pub source_freshness: SourceFreshness,
}

/// The index of the first element of `s` that satisfies `pred`, or `-1`.
pub open spec fn first_index<A>(s: Seq<A>, pred: spec_fn(A) -> bool) -> int
    decreases s.len(),
{
    if s.len() == 0 {
        -1
    } else if pred(s[0]) {
        0
    } else {
        let r = first_index(s.drop_first(), pred);
        if r < 0 {
            -1
        } else {
            r + 1
        }
    }
}

/// `first_index` is the least index whose element satisfies the predicate, or `-1` when none does.
pub proof fn lemma_first_index<A>(s: Seq<A>, pred: spec_fn(A) -> bool)
    ensures
        -1 <= first_index(s, pred) < s.len(),
        first_index(s, pred) >= 0 ==> pred(s[first_index(s, pred)]),
        forall|j: int|
            0 <= j < s.len() && (first_index(s, pred) < 0 || j < first_index(s, pred)) ==> !pred(
                #[trigger] s[j],
            ),
    decreases s.len(),
{
    if s.len() > 0 && !pred(s[0]) {
        lemma_first_index(s.drop_first(), pred);
        assert forall|j: int|
            0 <= j < s.len() && (first_index(s, pred) < 0 || j < first_index(s, pred)) implies !pred(
                #[trigger] s[j],
            ) by {
            if j > 0 {
                assert(s[j] == s.drop_first()[j - 1]);
            }
        }
    }
}

/// An index `i` whose element satisfies `pred`, after only elements that do not, is `first_index`.
pub proof fn lemma_first_index_is<A>(s: Seq<A>, pred: spec_fn(A) -> bool, i: int)
    requires
        0 <= i < s.len(),
        pred(s[i]),
        forall|j: int| 0 <= j < i ==> !pred(#[trigger] s[j]),
    ensures
        first_index(s, pred) == i,
{
    lemma_first_index(s, pred);
}

/// No element of `s` satisfies `pred`, so `first_index` is `-1`.
pub proof fn lemma_first_index_none<A>(s: Seq<A>, pred: spec_fn(A) -> bool)
    requires
        forall|j: int| 0 <= j < s.len() ==> !pred(#[trigger] s[j]),
    ensures
        first_index(s, pred) == -1,
{
    lemma_first_index(s, pred);
}

/// The session is named `name`.
pub open spec fn session_named(name: Seq<char>) -> spec_fn(SessionNode) -> bool {
    |s: SessionNode| s.name@ == name
}

/// The tab has this id and position.
pub open spec fn tab_exact(tab_id: u64, tab_position: u64) -> spec_fn(TabNode) -> bool {
    |t: TabNode| t.tab_id == tab_id && t.tab_position == tab_position
}

/// The tab has this id.
pub open spec fn tab_with_id(tab_id: u64) -> spec_fn(TabNode) -> bool {
    |t: TabNode| t.tab_id == tab_id
}

/// The pane has this id and kind.
pub open spec fn pane_with(pane_id: u64, pane_kind: PaneKind) -> spec_fn(PaneNode) -> bool {
    |p: PaneNode| p.pane_id == pane_id && p.pane_kind == pane_kind
}

/// The index of the first session named `name`, or `-1`.
pub open spec fn session_index(sessions: Seq<SessionNode>, name: Seq<char>) -> int {
    first_index(sessions, session_named(name))
}

/// The index of the tab a tab identity resolves to, or `-1`: the first tab with both id and
/// position, otherwise the first tab with the id.
pub open spec fn tab_index(tabs: Seq<TabNode>, tab_id: u64, tab_position: u64) -> int {
    let exact = first_index(tabs, tab_exact(tab_id, tab_position));
    if exact >= 0 {
        exact
    } else {
        first_index(tabs, tab_with_id(tab_id))
    }
}

/// The index of the first pane with this id and kind, or `-1`.
pub open spec fn pane_index(panes: Seq<PaneNode>, pane_id: u64, pane_kind: PaneKind) -> int {
    first_index(panes, pane_with(pane_id, pane_kind))
}

/// The reason given when a selected node is no longer in the tree.
pub open spec fn missing_reason() -> Seq<char> {
    "selected node is missing"@
}

/// The reason given for a pane that has no terminal to preview.
pub open spec fn no_terminal_reason() -> Seq<char> {
    "pane has no terminal preview target"@
}

/// A pane can be previewed and focused: a selectable terminal pane.
pub open spec fn is_focusable(pane: PaneNode) -> bool {
    pane.pane_kind == PaneKind::Terminal && pane.selectable
}

/// The preview target of the node that `id` names in `sessions`.
pub open spec fn preview_spec(sessions: Seq<SessionNode>, id: NodeIdView) -> PreviewTargetView {
    let missing = PreviewTargetView::Unavailable { reason: missing_reason() };
    match id {
        NodeIdView::Session { session_name } => {
            let si = session_index(sessions, session_name);
            if si < 0 {
                missing
            } else {
                PreviewTargetView::SessionSummary {
                    session_name: sessions[si].name@,
                    source_freshness: sessions[si].source_freshness,
                }
            }
        },
        NodeIdView::Tab { session_name, tab_id, tab_position } => {
            let si = session_index(sessions, session_name);
            if si < 0 {
                missing
            } else {
                let tabs = sessions[si].tabs@;
                let ti = tab_index(tabs, tab_id, tab_position);
                if ti < 0 {
                    missing
                } else {
                    PreviewTargetView::TabSummary {
                        session_name,
                        tab_id: tabs[ti].tab_id,
                        tab_position: tabs[ti].tab_position,
                        source_freshness: tabs[ti].source_freshness,
                    }
                }
            }
        },
        NodeIdView::Pane { session_name, tab_id, tab_position, pane_id, pane_kind } => {
            let si = session_index(sessions, session_name);
            if si < 0 {
                missing
            } else {
                let tabs = sessions[si].tabs@;
                let ti = tab_index(tabs, tab_id, tab_position);
                if ti < 0 {
                    missing
                } else {
                    let panes = tabs[ti].panes@;
                    let pi = pane_index(panes, pane_id, pane_kind);
                    if pi < 0 {
                        missing
                    } else if is_focusable(panes[pi]) {
                        PreviewTargetView::PaneSnapshotCandidate {
                            session_name,
                            tab_id,
                            tab_position: tabs[ti].tab_position,
                            pane_id,
                            source_freshness: panes[pi].source_freshness,
                        }
                    } else {
                        PreviewTargetView::Unavailable { reason: no_terminal_reason() }
                    }
                }
            }
        },
    }
}

/// The action that selecting the node `id` names in `sessions` stages.
pub open spec fn action_spec(sessions: Seq<SessionNode>, id: NodeIdView) -> SelectionActionView {
    match id {
        NodeIdView::Session { session_name } => {
            if session_index(sessions, session_name) < 0 {
                SelectionActionView::NoAction
            } else {
                SelectionActionView::SwitchSession { session_name }
            }
        },
        NodeIdView::Tab { session_name, tab_id, tab_position } => {
            let si = session_index(sessions, session_name);
            if si < 0 {
                SelectionActionView::NoAction
            } else {
                let tabs = sessions[si].tabs@;
                let ti = tab_index(tabs, tab_id, tab_position);
                if ti < 0 {
                    SelectionActionView::NoAction
                } else {
                    SelectionActionView::SwitchTab {
                        session_name,
                        tab_id: tabs[ti].tab_id,
                        tab_position: tabs[ti].tab_position,
                    }
                }
            }
        },
        NodeIdView::Pane { session_name, tab_id, tab_position, pane_id, pane_kind } => {
            let si = session_index(sessions, session_name);
            if si < 0 {
                SelectionActionView::NoAction
            } else {
                let tabs = sessions[si].tabs@;
                let ti = tab_index(tabs, tab_id, tab_position);
                if ti < 0 {
                    SelectionActionView::NoAction
                } else {
                    let panes = tabs[ti].panes@;
                    let pi = pane_index(panes, pane_id, pane_kind);
                    if pi >= 0 && is_focusable(panes[pi]) {
                        SelectionActionView::FocusPane {
                            session_name,
                            tab_id,
                            tab_position: tabs[ti].tab_position,
                            pane_id,
                        }
                    } else {
                        SelectionActionView::NoAction
                    }
                }
            }
        },
    }
}

impl NavigationModel {
    /// The index of the first session named `session_name`.
    pub fn find_session(&self, session_name: &str) -> (r: Option<usize>)
        ensures
            match r {
                Some(i) => i == session_index(self.sessions@, session_name@) && i
                    < self.sessions@.len(),
                None => session_index(self.sessions@, session_name@) < 0,
            },
    {
        let ghost pred = session_named(session_name@);
        let mut i: usize = 0;
        while i < self.sessions.len()
            invariant
                i <= self.sessions@.len(),
                pred == session_named(session_name@),
                forall|j: int| 0 <= j < i ==> !pred(#[trigger] self.sessions@[j]),
            decreases self.sessions.len() - i,
        {
            if str_eq(self.sessions[i].name.as_str(), session_name) {
                proof {
                    lemma_first_index_is(self.sessions@, pred, i as int);
                }
                return Some(i);
            }
            i = i + 1;
        }
        proof {
            lemma_first_index_none(self.sessions@, pred);
        }
        None
    }

    /// The session and tab indices that a tab identity resolves to.
    #[verifier::loop_isolation(false)]
    pub fn find_tab(&self, session_name: &str, tab_id: u64, tab_position: u64) -> (r: Option<
        (usize, usize),
    >)
        ensures
            match r {
                Some((si, ti)) => si == session_index(self.sessions@, session_name@) && si
                    < self.sessions@.len() && ti == tab_index(
                    self.sessions@[si as int].tabs@,
                    tab_id,
                    tab_position,
                ) && ti < self.sessions@[si as int].tabs@.len(),
                None => {
                    let si = session_index(self.sessions@, session_name@);
                    si < 0 || tab_index(self.sessions@[si].tabs@, tab_id, tab_position) < 0
                },
            },
    {
        let si = match self.find_session(session_name) {
            Some(si) => si,
            None => return None,
        };
        proof {
            lemma_first_index(self.sessions@, session_named(session_name@));
        }
        let tabs = &self.sessions[si].tabs;
        let ghost exact = tab_exact(tab_id, tab_position);
        let ghost by_id = tab_with_id(tab_id);
        let mut i: usize = 0;
        while i < tabs.len()
            invariant
                i <= tabs@.len(),
                exact == tab_exact(tab_id, tab_position),
                forall|j: int| 0 <= j < i ==> !exact(#[trigger] tabs@[j]),
            decreases tabs.len() - i,
        {
            if tabs[i].tab_id == tab_id && tabs[i].tab_position == tab_position {
                proof {
                    lemma_first_index_is(tabs@, exact, i as int);
                }
                return Some((si, i));
            }
            i = i + 1;
        }
        proof {
            lemma_first_index_none(tabs@, exact);
        }
        let mut k: usize = 0;
        while k < tabs.len()
            invariant
                k <= tabs@.len(),
                by_id == tab_with_id(tab_id),
                forall|j: int| 0 <= j < k ==> !by_id(#[trigger] tabs@[j]),
            decreases tabs.len() - k,
        {
            if tabs[k].tab_id == tab_id {
                proof {
                    lemma_first_index_is(tabs@, by_id, k as int);
                }
                return Some((si, k));
            }
            k = k + 1;
        }
        proof {
            lemma_first_index_none(tabs@, by_id);
        }
        None
    }

    /// The session, tab and pane indices that a pane identity resolves to.
    #[verifier::loop_isolation(false)]
    pub fn find_pane(
        &self,
        session_name: &str,
        tab_id: u64,
        tab_position: u64,
        pane_id: u64,
        pane_kind: PaneKind,
    ) -> (r: Option<(usize, usize, usize)>)
        ensures
            match r {
                Some((si, ti, pi)) => si == session_index(self.sessions@, session_name@) && si
                    < self.sessions@.len() && ti == tab_index(
                    self.sessions@[si as int].tabs@,
                    tab_id,
                    tab_position,
                ) && ti < self.sessions@[si as int].tabs@.len() && pi == pane_index(
                    self.sessions@[si as int].tabs@[ti as int].panes@,
                    pane_id,
                    pane_kind,
                ) && pi < self.sessions@[si as int].tabs@[ti as int].panes@.len(),
                None => {
                    let si = session_index(self.sessions@, session_name@);
                    let ti = tab_index(self.sessions@[si].tabs@, tab_id, tab_position);
                    si < 0 || ti < 0 || pane_index(
                        self.sessions@[si].tabs@[ti].panes@,
                        pane_id,
                        pane_kind,
                    ) < 0
                },
            },
    {
        let (si, ti) = match self.find_tab(session_name, tab_id, tab_position) {
            Some(found) => found,
            None => return None,
        };
        let panes = &self.sessions[si].tabs[ti].panes;
        let ghost pred = pane_with(pane_id, pane_kind);
        let mut i: usize = 0;
        while i < panes.len()
            invariant
                i <= panes@.len(),
                pred == pane_with(pane_id, pane_kind),
                forall|j: int| 0 <= j < i ==> !pred(#[trigger] panes@[j]),
            decreases panes.len() - i,
        {
            if panes[i].pane_id == pane_id && panes[i].pane_kind == pane_kind {
                proof {
                    lemma_first_index_is(panes@, pred, i as int);
                }
                return Some((si, ti, i));
            }
            i = i + 1;
        }
        proof {
            lemma_first_index_none(panes@, pred);
        }
        None
    }

    /// The preview target for a selected node.
    pub fn resolve_preview_target(&self, node_id: &NodeId) -> (r: PreviewTarget)
        ensures
            r@ == preview_spec(self.sessions@, node_id@),
    {
        match node_id {
            NodeId::Session { session_name } => match self.find_session(session_name.as_str()) {
                Some(si) => PreviewTarget::SessionSummary {
                    session_name: self.sessions[si].name.clone(),
                    source_freshness: self.sessions[si].source_freshness,
                },
                None => PreviewTarget::Unavailable { reason: "selected node is missing" },
            },
            NodeId::Tab { session_name, tab_id, tab_position } => match self.find_tab(
                session_name.as_str(),
                *tab_id,
                *tab_position,
            ) {
                Some((si, ti)) => {
                    let tab = &self.sessions[si].tabs[ti];
                    PreviewTarget::TabSummary {
                        session_name: session_name.clone(),
                        tab_id: tab.tab_id,
                        tab_position: tab.tab_position,
                        source_freshness: tab.source_freshness,
                    }
                },
                None => PreviewTarget::Unavailable { reason: "selected node is missing" },
            },
            NodeId::Pane { session_name, tab_id, tab_position, pane_id, pane_kind } => {
                match self.find_pane(
                    session_name.as_str(),
                    *tab_id,
                    *tab_position,
                    *pane_id,
                    *pane_kind,
                ) {
                    Some((si, ti, pi)) => {
                        let tab = &self.sessions[si].tabs[ti];
                        let pane = &tab.panes[pi];
                        if pane.pane_kind == PaneKind::Terminal && pane.selectable {
                            PreviewTarget::PaneSnapshotCandidate {
                                session_name: session_name.clone(),
                                tab_id: *tab_id,
                                tab_position: tab.tab_position,
                                pane_id: *pane_id,
                                source_freshness: pane.source_freshness,
                            }
                        } else {
                            PreviewTarget::Unavailable {
                                reason: "pane has no terminal preview target",
                            }
                        }
                    },
                    None => PreviewTarget::Unavailable { reason: "selected node is missing" },
                }
            },
        }
    }

    /// The action that `Enter` stages for a selected node.
    pub fn resolve_selection_action(&self, node_id: &NodeId) -> (r: SelectionAction)
        ensures
            r@ == action_spec(self.sessions@, node_id@),
    {
        match node_id {
            NodeId::Session { session_name } => {
                if self.find_session(session_name.as_str()).is_some() {
                    SelectionAction::SwitchSession { session_name: session_name.clone() }
                } else {
                    SelectionAction::NoAction
                }
            },
            NodeId::Tab { session_name, tab_id, tab_position } => match self.find_tab(
                session_name.as_str(),
                *tab_id,
                *tab_position,
            ) {
                Some((si, ti)) => {
                    let tab = &self.sessions[si].tabs[ti];
                    SelectionAction::SwitchTab {
                        session_name: session_name.clone(),
                        tab_id: tab.tab_id,
                        tab_position: tab.tab_position,
                    }
                },
                None => SelectionAction::NoAction,
            },
            NodeId::Pane { session_name, tab_id, tab_position, pane_id, pane_kind } => {
                match self.find_pane(
                    session_name.as_str(),
                    *tab_id,
                    *tab_position,
                    *pane_id,
                    *pane_kind,
                ) {
                    Some((si, ti, pi)) => {
                        let tab = &self.sessions[si].tabs[ti];
                        let pane = &tab.panes[pi];
                        if pane.pane_kind == PaneKind::Terminal && pane.selectable {
                            SelectionAction::FocusPane {
                                session_name: session_name.clone(),
                                tab_id: *tab_id,
                                tab_position: tab.tab_position,
                                pane_id: *pane_id,
                            }
                        } else {
                            SelectionAction::NoAction
                        }
                    },
                    None => SelectionAction::NoAction,
                }
            },
        }
    }
}


/// The filter token of a session state.
pub open spec fn session_state_token(state: SessionState) -> Seq<char> {
    match state {
        SessionState::Active => "active"@,
        SessionState::Current => "current"@,
        SessionState::Exited => "exited"@,
        SessionState::Unknown => "unknown"@,
    }
}

/// The word that filtering matches for a session state.
pub fn session_state_filter_token(state: SessionState) -> (r: &'static str)
    ensures
        r@ == session_state_token(state),
{
    match state {
        SessionState::Active => "active",
        SessionState::Current => "current",
        SessionState::Exited => "exited",
        SessionState::Unknown => "unknown",
    }
}

/// The query a filter compares: trimmed and ASCII lower-cased.
pub open spec fn normalize_spec(q: Seq<char>) -> Seq<char> {
    lower_seq(trim_seq(q))
}

/// A row matches a needle: the needle is empty or occurs in the row's filter text.
pub open spec fn matches_spec(filter_text: Seq<char>, needle: Seq<char>) -> bool {
    needle.len() == 0 || contains_seq(filter_text, needle)
}

/// The filter query, trimmed and ASCII lower-cased.
pub fn normalize_filter_query(filter_query: &str) -> (r: String)
    ensures
        r@ == normalize_spec(filter_query@),
{
    let trimmed = trim_str(filter_query);
    lower_str(trimmed.as_str())
}

/// Whether a row with this filter text passes the (normalized) needle.
pub fn matches_filter(filter_text: &str, needle: &str) -> (b: bool)
    ensures
        b == matches_spec(filter_text@, needle@),
{
    str_is_empty(needle) || str_contains(filter_text, needle)
}

/// The label of a session row.
pub open spec fn session_label(n: SessionNode) -> Seq<char> {
    "session "@ + n.name@ + " ("@ + session_state_token(n.state) + ")"@
}

/// The label of a tab row.
pub open spec fn tab_label(n: TabNode) -> Seq<char> {
    "tab "@ + decimal_seq(n.tab_position as nat) + ": "@ + n.name@
}

/// The label of a pane row; a pane without a title shows its kind.
pub open spec fn pane_label(n: PaneNode) -> Seq<char> {
    pane_kind_token(n.pane_kind) + " pane "@ + decimal_seq(n.pane_id as nat) + ": "@ + match n.title {
        Some(t) => t@,
        None => pane_kind_token(n.pane_kind),
    }
}

/// `item` is the row of a node with these properties.
pub open spec fn is_row_item(
    item: VisibleItem,
    depth: nat,
    label: Seq<char>,
    node_id: NodeIdView,
    selectable: bool,
    filter_text: Seq<char>,
) -> bool {
    &&& item.depth == depth
    &&& item.label@ == label
    &&& item.node_id@ == node_id
    &&& item.selectable == selectable
    &&& item.filter_text@ == filter_text
}

impl SessionNode {
    /// The row of this session.
    pub fn visible_item(&self, depth: usize) -> (r: VisibleItem)
        ensures
            is_row_item(r, depth as nat, session_label(*self), self.node_id@, true, self.filter_text@),
    {
        let mut label = "session ".to_owned();
        label.append(self.name.as_str());
        label.append(" (");
        label.append(session_state_filter_token(self.state));
        label.append(")");
        VisibleItem {
            depth,
            label,
            node_id: self.node_id.clone(),
            selectable: true,
            filter_text: self.filter_text.clone(),
        }
    }
}

impl TabNode {
    /// The row of this tab.
    pub fn visible_item(&self, depth: usize) -> (r: VisibleItem)
        ensures
            is_row_item(r, depth as nat, tab_label(*self), self.node_id@, true, self.filter_text@),
    {
        let mut label = "tab ".to_owned();
        let position = u64_to_text(self.tab_position);
        label.append(position.as_str());
        label.append(": ");
        label.append(self.name.as_str());
        VisibleItem {
            depth,
            label,
            node_id: self.node_id.clone(),
            selectable: true,
            filter_text: self.filter_text.clone(),
        }
    }
}

impl PaneNode {
    /// The row of this pane; only selectable terminal panes are selectable rows.
    pub fn visible_item(&self, depth: usize) -> (r: VisibleItem)
        ensures
            is_row_item(
                r,
                depth as nat,
                pane_label(*self),
                self.node_id@,
                self.selectable,
                self.filter_text@,
            ),
    {
        let pane_kind = self.pane_kind.as_filter_token();
        let mut label = pane_kind.to_owned();
        label.append(" pane ");
        let id = u64_to_text(self.pane_id);
        label.append(id.as_str());
        label.append(": ");
        match &self.title {
            Some(title) => label.append(title.as_str()),
            None => label.append(pane_kind),
        }
        VisibleItem {
            depth,
            label,
            node_id: self.node_id.clone(),
            selectable: self.selectable,
            filter_text: self.filter_text.clone(),
        }
    }
}

/// A reference to one node of the tree by indices.
pub enum RowRef {
    Session { s: int },
    Tab { s: int, t: int },
    Pane { s: int, t: int, p: int },
}

/// `item` is the row that `row` refers to in `sessions`.
pub open spec fn item_matches(sessions: Seq<SessionNode>, row: RowRef, item: VisibleItem) -> bool {
    match row {
        RowRef::Session { s } => {
            let n = sessions[s];
            is_row_item(item, 0, session_label(n), n.node_id@, true, n.filter_text@)
        },
        RowRef::Tab { s, t } => {
            let n = sessions[s].tabs@[t];
            is_row_item(item, 1, tab_label(n), n.node_id@, true, n.filter_text@)
        },
        RowRef::Pane { s, t, p } => {
            let n = sessions[s].tabs@[t].panes@[p];
            is_row_item(item, 2, pane_label(n), n.node_id@, n.selectable, n.filter_text@)
        },
    }
}

/// `items` are exactly the rows `rows` refers to, in order.
pub open spec fn items_match(
    sessions: Seq<SessionNode>,
    rows: Seq<RowRef>,
    items: Seq<VisibleItem>,
) -> bool {
    &&& rows.len() == items.len()
    &&& forall|i: int| 0 <= i < rows.len() ==> item_matches(sessions, rows[i], #[trigger] items[i])
}

/// The matching panes among the first `k` panes of tab `t` of session `s`, in order.
pub open spec fn pane_rows(sessions: Seq<SessionNode>, s: int, t: int, needle: Seq<char>, k: int) -> Seq<
    RowRef,
>
    decreases k,
{
    if k <= 0 {
        seq![]
    } else {
        let prev = pane_rows(sessions, s, t, needle, k - 1);
        if matches_spec(sessions[s].tabs@[t].panes@[k - 1].filter_text@, needle) {
            prev.push(RowRef::Pane { s, t, p: k - 1 })
        } else {
            prev
        }
    }
}

/// The rows of tab `t` of session `s`: shown, followed by its matching panes, when there is no
/// filter, the tab matches, or one of its panes matches.
pub open spec fn tab_rows(sessions: Seq<SessionNode>, s: int, t: int, needle: Seq<char>) -> Seq<
    RowRef,
> {
    let tab = sessions[s].tabs@[t];
    let panes = pane_rows(sessions, s, t, needle, tab.panes@.len() as int);
    if needle.len() == 0 || matches_spec(tab.filter_text@, needle) || panes.len() > 0 {
        seq![RowRef::Tab { s, t }] + panes
    } else {
        seq![]
    }
}

/// The rows of the first `k` tabs of session `s`.
pub open spec fn session_tab_rows(sessions: Seq<SessionNode>, s: int, needle: Seq<char>, k: int) -> Seq<
    RowRef,
>
    decreases k,
{
    if k <= 0 {
        seq![]
    } else {
        session_tab_rows(sessions, s, needle, k - 1) + tab_rows(sessions, s, k - 1, needle)
    }
}

/// The rows of session `s`: shown, followed by the rows of its tabs, when there is no filter,
/// the session matches, or one of its tabs is shown.
pub open spec fn session_rows(sessions: Seq<SessionNode>, s: int, needle: Seq<char>) -> Seq<RowRef> {
    let session = sessions[s];
    let descendants = session_tab_rows(sessions, s, needle, session.tabs@.len() as int);
    if needle.len() == 0 || matches_spec(session.filter_text@, needle) || descendants.len() > 0 {
        seq![RowRef::Session { s }] + descendants
    } else {
        seq![]
    }
}

/// The rows of the first `k` sessions.
pub open spec fn model_rows(sessions: Seq<SessionNode>, needle: Seq<char>, k: int) -> Seq<RowRef>
    decreases k,
{
    if k <= 0 {
        seq![]
    } else {
        model_rows(sessions, needle, k - 1) + session_rows(sessions, k - 1, needle)
    }
}

/// The rows the tree shows for a filter query.
pub open spec fn visible_rows(sessions: Seq<SessionNode>, filter_query: Seq<char>) -> Seq<RowRef> {
    model_rows(sessions, normalize_spec(filter_query), sessions.len() as int)
}

proof fn lemma_items_match_append(
    sessions: Seq<SessionNode>,
    r1: Seq<RowRef>,
    i1: Seq<VisibleItem>,
    r2: Seq<RowRef>,
    i2: Seq<VisibleItem>,
)
    requires
        items_match(sessions, r1, i1),
        items_match(sessions, r2, i2),
    ensures
        items_match(sessions, r1 + r2, i1 + i2),
{
    assert forall|i: int| 0 <= i < (r1 + r2).len() implies item_matches(
        sessions,
        (r1 + r2)[i],
        #[trigger] (i1 + i2)[i],
    ) by {
        if i < r1.len() {
            assert((r1 + r2)[i] == r1[i]);
            assert((i1 + i2)[i] == i1[i]);
        } else {
            assert((r1 + r2)[i] == r2[i - r1.len()]);
            assert((i1 + i2)[i] == i2[i - i1.len()]);
        }
    }
}

impl NavigationModel {
    /// Every row of the tree in order: each session, then each of its tabs followed by the
    /// tab's panes.
    pub fn flatten_visible(&self) -> (r: Vec<VisibleItem>)
        ensures
            items_match(self.sessions@, model_rows(self.sessions@, seq![], self.sessions@.len() as int), r@),
    {
        proof {
            reveal_strlit("");
            assert(normalize_spec(""@) =~= seq![]);
        }
        self.flatten_filtered("")
    }

    /// The rows that pass a filter query, in tree order. The query is trimmed and ASCII
    /// lower-cased, and matched as a substring of each row's filter text; a tab is shown when it
    /// or one of its panes matches, a session when it or one of its tabs is shown, and a shown
    /// tab lists only its matching panes.
    #[verifier::loop_isolation(false)]
    pub fn flatten_filtered(&self, filter_query: &str) -> (r: Vec<VisibleItem>)
        ensures
            items_match(self.sessions@, visible_rows(self.sessions@, filter_query@), r@),
    {
        let needle = normalize_filter_query(filter_query);
        let has_filter = !str_is_empty(needle.as_str());
        let ghost sessions = self.sessions@;
        let ghost nd = needle@;
        let mut items: Vec<VisibleItem> = Vec::new();
        let mut si: usize = 0;
        while si < self.sessions.len()
            invariant
                si <= sessions.len(),
                items_match(sessions, model_rows(sessions, nd, si as int), items@),
            decreases self.sessions.len() - si,
        {
            let session = &self.sessions[si];
            let session_matches = matches_filter(session.filter_text.as_str(), needle.as_str());
            let mut session_descendants: Vec<VisibleItem> = Vec::new();
            let mut ti: usize = 0;
            while ti < session.tabs.len()
                invariant
                    ti <= session.tabs@.len(),
                    items_match(
                        sessions,
                        session_tab_rows(sessions, si as int, nd, ti as int),
                        session_descendants@,
                    ),
                decreases session.tabs.len() - ti,
            {
                let tab = &session.tabs[ti];
                let tab_matches = matches_filter(tab.filter_text.as_str(), needle.as_str());
                let mut tab_descendants: Vec<VisibleItem> = Vec::new();
                let mut pi: usize = 0;
                while pi < tab.panes.len()
                    invariant
                        pi <= tab.panes@.len(),
                        items_match(
                            sessions,
                            pane_rows(sessions, si as int, ti as int, nd, pi as int),
                            tab_descendants@,
                        ),
                    decreases tab.panes.len() - pi,
                {
                    let pane = &tab.panes[pi];
                    if matches_filter(pane.filter_text.as_str(), needle.as_str()) {
                        let item = pane.visible_item(2);
                        proof {
                            let row = RowRef::Pane { s: si as int, t: ti as int, p: pi as int };
                            assert(item_matches(sessions, row, item));
                            lemma_items_match_append(
                                sessions,
                                pane_rows(sessions, si as int, ti as int, nd, pi as int),
                                tab_descendants@,
                                seq![row],
                                seq![item],
                            );
                            assert(tab_descendants@.push(item) =~= tab_descendants@ + seq![item]);
                        }
                        tab_descendants.push(item);
                    }
                    pi = pi + 1;
                }
                let ghost before = session_descendants@;
                if !has_filter || tab_matches || tab_descendants.len() > 0 {
                    let first = tab.visible_item(1);
                    let mut tab_items: Vec<VisibleItem> = Vec::new();
                    tab_items.push(first);
                    proof {
                        let row = RowRef::Tab { s: si as int, t: ti as int };
                        assert(item_matches(sessions, row, first));
                        assert(items_match(sessions, seq![row], tab_items@));
                        lemma_items_match_append(
                            sessions,
                            seq![row],
                            tab_items@,
                            pane_rows(sessions, si as int, ti as int, nd, tab.panes@.len() as int),
                            tab_descendants@,
                        );
                    }
                    tab_items.append(&mut tab_descendants);
                    proof {
                        lemma_items_match_append(
                            sessions,
                            session_tab_rows(sessions, si as int, nd, ti as int),
                            before,
                            tab_rows(sessions, si as int, ti as int, nd),
                            tab_items@,
                        );
                    }
                    session_descendants.append(&mut tab_items);
                } else {
                    assert(tab_rows(sessions, si as int, ti as int, nd) =~= seq![]);
                    assert(before + seq![] =~= before);
                    assert(session_tab_rows(sessions, si as int, nd, ti as int) + seq![] =~= session_tab_rows(sessions, si as int, nd, ti as int));
                }
                ti = ti + 1;
            }
            let ghost before_items = items@;
            if !has_filter || session_matches || session_descendants.len() > 0 {
                let head = session.visible_item(0);
                let mut block: Vec<VisibleItem> = Vec::new();
                block.push(head);
                proof {
                    let row = RowRef::Session { s: si as int };
                    assert(item_matches(sessions, row, head));
                    assert(items_match(sessions, seq![row], block@));
                    lemma_items_match_append(
                        sessions,
                        seq![row],
                        block@,
                        session_tab_rows(sessions, si as int, nd, session.tabs@.len() as int),
                        session_descendants@,
                    );
                }
                block.append(&mut session_descendants);
                proof {
                    lemma_items_match_append(
                        sessions,
                        model_rows(sessions, nd, si as int),
                        before_items,
                        session_rows(sessions, si as int, nd),
                        block@,
                    );
                }
                items.append(&mut block);
            } else {
                assert(session_rows(sessions, si as int, nd) =~= seq![]);
                assert(before_items + seq![] =~= before_items);
                assert(model_rows(sessions, nd, si as int) + seq![] =~= model_rows(sessions, nd, si as int));
            }
            si = si + 1;
        }
        items
    }
}


/// Tab records order by position, then by tab id.
pub open spec fn tab_key_lt(a: TabInfo, b: TabInfo) -> bool {
    a.position < b.position || (a.position == b.position && a.tab_id < b.tab_id)
}

/// The tab record orders strictly after `x`.
pub open spec fn sorts_after(x: TabInfo) -> spec_fn(TabInfo) -> bool {
    |y: TabInfo| tab_key_lt(x, y)
}

/// The tab record has this id.
pub open spec fn tab_info_with_id(tab_id: u64) -> spec_fn(TabInfo) -> bool {
    |t: TabInfo| t.tab_id == tab_id
}

/// The pane record belongs to the tab with this id.
pub open spec fn pane_of_tab(tab_id: u64) -> spec_fn(PaneInfo) -> bool {
    |p: PaneInfo| p.tab_id == tab_id
}

/// `x` inserted into the sorted `s` after every record whose key is not greater than its own.
pub open spec fn insert_sorted(s: Seq<TabInfo>, x: TabInfo) -> Seq<TabInfo> {
    let i = first_index(s, sorts_after(x));
    if i < 0 {
        s.push(x)
    } else {
        s.insert(i, x)
    }
}

/// The tab records stably sorted by `(position, tab_id)`.
pub open spec fn tab_sort(s: Seq<TabInfo>) -> Seq<TabInfo>
    decreases s.len(),
{
    if s.len() == 0 {
        s
    } else {
        insert_sorted(tab_sort(s.drop_last()), s.last())
    }
}

/// The panes that the tab at index `j` of the sorted `tabs` holds: the panes carrying its tab
/// id, in their order, when it is the first tab with that id, and none otherwise.
pub open spec fn panes_for_tab(tabs: Seq<TabInfo>, j: int, panes: Seq<PaneInfo>) -> Seq<PaneInfo> {
    let id = tabs[j].tab_id;
    if first_index(tabs, tab_info_with_id(id)) == j {
        panes.filter(pane_of_tab(id))
    } else {
        seq![]
    }
}

/// The kind of the pane a record describes.
pub open spec fn kind_of(pane: PaneInfo) -> PaneKind {
    if pane.is_plugin {
        PaneKind::Plugin
    } else {
        PaneKind::Terminal
    }
}

/// The last field of a pane's filter text: its working directory, else its plugin URL.
pub open spec fn pane_location(pane: PaneInfo) -> Seq<char> {
    match pane.pane_cwd {
        Some(cwd) => cwd@,
        None => opt_text(pane.plugin_url),
    }
}

/// The lower-cased text a pane row is matched against.
pub open spec fn pane_filter_text(tab_name: Seq<char>, tab_position: u64, tab_id: u64, pane: PaneInfo) -> Seq<char> {
    lower_seq(
        tab_name + " "@ + decimal_seq(tab_position as nat) + " "@ + decimal_seq(tab_id as nat) + " "@
            + decimal_seq(pane.id as nat) + " "@ + pane_kind_token(kind_of(pane)) + " "@ + opt_text(
            pane.title,
        ) + " "@ + opt_text(pane.terminal_command) + " "@ + opt_text(pane.pane_command) + " "@
            + pane_location(pane),
    )
}

/// The lower-cased text a tab row is matched against.
pub open spec fn tab_filter_text(tab: TabInfo) -> Seq<char> {
    lower_seq(tab.name@ + " "@ + decimal_seq(tab.position as nat) + " "@ + decimal_seq(tab.tab_id as nat))
}

/// The lower-cased text a session row is matched against.
pub open spec fn session_filter_text(session: SessionInfo) -> Seq<char> {
    lower_seq(session.name@ + " "@ + session_state_token(session.state) + " "@ + opt_text(session.created_age))
}

/// `n` is the pane node built from `pane` in the given tab of the given session.
pub open spec fn pane_built_from(
    n: PaneNode,
    session_name: Seq<char>,
    tab_id: u64,
    tab_position: u64,
    tab_name: Seq<char>,
    pane: PaneInfo,
    f: SourceFreshness,
) -> bool {
    &&& n.node_id@ == NodeIdView::Pane {
        session_name,
        tab_id,
        tab_position,
        pane_id: pane.id,
        pane_kind: kind_of(pane),
    }
    &&& n.pane_id == pane.id
    &&& n.pane_kind == kind_of(pane)
    &&& n.title == pane.title
    &&& n.terminal_command == pane.terminal_command
    &&& n.pane_command == pane.pane_command
    &&& n.pane_cwd == pane.pane_cwd
    &&& n.selectable == (pane.is_selectable && kind_of(pane) == PaneKind::Terminal)
    &&& n.source_freshness == f
    &&& n.filter_text@ == pane_filter_text(tab_name, tab_position, tab_id, pane)
}

/// `n` is the tab node built from `tab` and its panes in the given session.
pub open spec fn tab_built_from(
    n: TabNode,
    session_name: Seq<char>,
    tab: TabInfo,
    panes: Seq<PaneInfo>,
    f: SourceFreshness,
) -> bool {
    &&& n.node_id@ == NodeIdView::Tab { session_name, tab_id: tab.tab_id, tab_position: tab.position }
    &&& n.tab_id == tab.tab_id
    &&& n.tab_position == tab.position
    &&& n.name@ == tab.name@
    &&& n.active == tab.active
    &&& n.source_freshness == f
    &&& n.filter_text@ == tab_filter_text(tab)
    &&& n.panes@.len() == panes.len()
    &&& forall|j: int|
        0 <= j < panes.len() ==> pane_built_from(
            #[trigger] n.panes@[j],
            session_name,
            tab.tab_id,
            tab.position,
            tab.name@,
            panes[j],
            f,
        )
}

/// `n` is the session node built from the records `d`: its tabs in `(position, tab_id)` order,
/// each holding the panes that carry its tab id.
pub open spec fn session_built_from(n: SessionNode, d: SessionScopedData) -> bool {
    let sorted = tab_sort(d.tabs@);
    &&& n.node_id@ == NodeIdView::Session { session_name: d.session.name@ }
    &&& n.name@ == d.session.name@
    &&& n.created_age == d.session.created_age
    &&& n.state == d.session.state
    &&& n.source_freshness == d.source_freshness
    &&& n.filter_text@ == session_filter_text(d.session)
    &&& n.tabs@.len() == sorted.len()
    &&& forall|i: int|
        0 <= i < sorted.len() ==> tab_built_from(
            #[trigger] n.tabs@[i],
            d.session.name@,
            sorted[i],
            panes_for_tab(sorted, i, d.panes@),
            d.source_freshness,
        )
}

/// Whether tab record `a` orders strictly before `b`.
pub fn tab_key_less(a: &TabInfo, b: &TabInfo) -> (r: bool)
    ensures
        r == tab_key_lt(*a, *b),
{
    a.position < b.position || (a.position == b.position && a.tab_id < b.tab_id)
}

/// The tab records stably sorted by `(position, tab_id)`.
pub fn sort_tabs(tabs: Vec<TabInfo>) -> (r: Vec<TabInfo>)
    ensures
        r@ == tab_sort(tabs@),
{
    let ghost orig = tabs@;
    let mut rest = tabs;
    let mut out: Vec<TabInfo> = Vec::new();
    let ghost mut k: int = 0;
    assert(orig.take(0) =~= seq![]);
    assert(orig.skip(0) =~= orig);
    while rest.len() > 0
        invariant
            0 <= k <= orig.len(),
            rest@ == orig.skip(k),
            out@ == tab_sort(orig.take(k)),
        decreases rest.len(),
    {
        let x = rest.remove(0);
        let ghost pred = sorts_after(x);
        let mut i: usize = 0;
        while i < out.len() && !tab_key_less(&x, &out[i])
            invariant
                i <= out@.len(),
                pred == sorts_after(x),
                forall|j: int| 0 <= j < i ==> !pred(#[trigger] out@[j]),
            decreases out.len() - i,
        {
            i = i + 1;
        }
        proof {
            assert(orig.take(k + 1).drop_last() =~= orig.take(k));
            assert(orig.take(k + 1).last() == x);
            if i < out@.len() {
                lemma_first_index_is(out@, pred, i as int);
            } else {
                lemma_first_index_none(out@, pred);
            }
            assert(orig.skip(k).drop_first() =~= orig.skip(k + 1));
        }
        if i < out.len() {
            out.insert(i, x);
        } else {
            out.push(x);
        }
        proof {
            k = k + 1;
        }
    }
    assert(orig.take(k) =~= orig);
    out
}

impl PaneNode {
    /// The pane node of a pane record in the given tab of the given session.
    pub fn from_pane_info(
        session_name: &str,
        tab_id: u64,
        tab_position: u64,
        tab_name: &str,
        pane: PaneInfo,
        source_freshness: SourceFreshness,
    ) -> (r: Self)
        ensures
            pane_built_from(r, session_name@, tab_id, tab_position, tab_name@, pane, source_freshness),
    {
        let pane_kind = PaneKind::from_pane_info(&pane);
        let selectable = pane.is_selectable && pane_kind == PaneKind::Terminal;
        let pane_kind_token = pane_kind.as_filter_token();
        let mut text = tab_name.to_owned();
        text.append(" ");
        let position = u64_to_text(tab_position);
        text.append(position.as_str());
        text.append(" ");
        let id = u64_to_text(tab_id);
        text.append(id.as_str());
        text.append(" ");
        let pane_id_token = u64_to_text(pane.id);
        text.append(pane_id_token.as_str());
        text.append(" ");
        text.append(pane_kind_token);
        text.append(" ");
        match &pane.title {
            Some(t) => text.append(t.as_str()),
            None => text.append(""),
        }
        text.append(" ");
        match &pane.terminal_command {
            Some(t) => text.append(t.as_str()),
            None => text.append(""),
        }
        text.append(" ");
        match &pane.pane_command {
            Some(t) => text.append(t.as_str()),
            None => text.append(""),
        }
        text.append(" ");
        match &pane.pane_cwd {
            Some(t) => text.append(t.as_str()),
            None => match &pane.plugin_url {
                Some(u) => text.append(u.as_str()),
                None => text.append(""),
            },
        }
        let filter_text = lower_str(text.as_str());
        proof {
            reveal_strlit("");
        }
        PaneNode {
            node_id: NodeId::Pane {
                session_name: session_name.to_owned(),
                tab_id,
                tab_position,
                pane_id: pane.id,
                pane_kind,
            },
            pane_id: pane.id,
            pane_kind,
            title: pane.title,
            terminal_command: pane.terminal_command,
            pane_command: pane.pane_command,
            pane_cwd: pane.pane_cwd,
            selectable,
            source_freshness,
            filter_text,
        }
    }
}


impl TabNode {
    /// The tab node of a tab record and its panes in the given session.
    pub fn from_tab_info(
        session_name: &str,
        tab: TabInfo,
        panes: Vec<PaneInfo>,
        source_freshness: SourceFreshness,
    ) -> (r: Self)
        ensures
            tab_built_from(r, session_name@, tab, panes@, source_freshness),
    {
        let tab_position = tab.position;
        let tab_id = tab.tab_id;
        let ghost orig = panes@;
        let mut rest = panes;
        let mut nodes: Vec<PaneNode> = Vec::new();
        assert(orig.skip(0) =~= orig);
        while rest.len() > 0
            invariant
                0 <= nodes@.len() <= orig.len(),
                rest@ == orig.skip(nodes@.len() as int),
                forall|j: int|
                    0 <= j < nodes@.len() ==> pane_built_from(
                        #[trigger] nodes@[j],
                        session_name@,
                        tab_id,
                        tab_position,
                        tab.name@,
                        orig[j],
                        source_freshness,
                    ),
            decreases rest.len(),
        {
            let ghost k = nodes@.len() as int;
            let pane = rest.remove(0);
            assert(orig.skip(k).drop_first() =~= orig.skip(k + 1));
            let node = PaneNode::from_pane_info(
                session_name,
                tab_id,
                tab_position,
                tab.name.as_str(),
                pane,
                source_freshness,
            );
            nodes.push(node);
        }
        let mut text = tab.name.clone();
        text.append(" ");
        let position = u64_to_text(tab_position);
        text.append(position.as_str());
        text.append(" ");
        let id = u64_to_text(tab_id);
        text.append(id.as_str());
        let filter_text = lower_str(text.as_str());
        TabNode {
            node_id: NodeId::Tab { session_name: session_name.to_owned(), tab_id, tab_position },
            tab_id,
            tab_position,
            name: tab.name,
            active: tab.active,
            panes: nodes,
            source_freshness,
            filter_text,
        }
    }
}

impl SessionNode {
    /// The session node of one session's records: tabs stably sorted by `(position, tab_id)`,
    /// each pane attached to the first tab with its tab id, panes of no listed tab dropped.
    #[verifier::loop_isolation(false)]
    pub fn from_session_scoped_data(scoped: SessionScopedData) -> (r: Self)
        ensures
            session_built_from(r, scoped),
    {
        let ghost d = scoped;
        let SessionScopedData { session, tabs, panes, source_freshness } = scoped;
        let sorted = sort_tabs(tabs);
        let ghost st = sorted@;
        let mut groups: Vec<Vec<PaneInfo>> = Vec::new();
        while groups.len() < sorted.len()
            invariant
                groups@.len() <= st.len(),
                forall|j: int| 0 <= j < groups@.len() ==> (#[trigger] groups@[j])@ == Seq::<PaneInfo>::empty(),
            decreases sorted.len() - groups.len(),
        {
            groups.push(Vec::new());
        }
        let ghost orig = panes@;
        let mut rest = panes;
        let ghost mut k: int = 0;
        assert(orig.skip(0) =~= orig);
        assert forall|j: int| 0 <= j < st.len() implies (#[trigger] groups@[j])@ == panes_for_tab(st, j, orig.take(0)) by {
            assert(orig.take(0) =~= seq![]);
            reveal(Seq::filter);
        }
        while rest.len() > 0
            invariant
                0 <= k <= orig.len(),
                rest@ == orig.skip(k),
                groups@.len() == st.len(),
                sorted@ == st,
                forall|j: int| 0 <= j < st.len() ==> (#[trigger] groups@[j])@ == panes_for_tab(st, j, orig.take(k)),
            decreases rest.len(),
        {
            let pane = rest.remove(0);
            let ghost by_id = tab_info_with_id(pane.tab_id);
            let mut i: usize = 0;
            while i < sorted.len() && sorted[i].tab_id != pane.tab_id
                invariant
                    i <= st.len(),
                    sorted@ == st,
                    by_id == tab_info_with_id(pane.tab_id),
                    forall|j: int| 0 <= j < i ==> !by_id(#[trigger] st[j]),
                decreases sorted.len() - i,
            {
                i = i + 1;
            }
            proof {
                assert(orig.take(k + 1) =~= orig.take(k).push(pane));
                assert(orig.skip(k).drop_first() =~= orig.skip(k + 1));
                if i < st.len() {
                    lemma_first_index_is(st, by_id, i as int);
                } else {
                    lemma_first_index_none(st, by_id);
                }
            }
            if i < sorted.len() {
                let mut g = groups.remove(i);
                g.push(pane);
                groups.insert(i, g);
            }
            proof {
                assert forall|j: int| 0 <= j < st.len() implies (#[trigger] groups@[j])@ == panes_for_tab(st, j, orig.take(k + 1)) by {
                    let id = st[j].tab_id;
                    orig.take(k).lemma_filter_push(pane, pane_of_tab(id));
                    if j == i {
                    } else if first_index(st, tab_info_with_id(id)) == j {
                        lemma_first_index(st, tab_info_with_id(id));
                        lemma_first_index(st, by_id);
                    }
                }
                k = k + 1;
            }
        }
        assert(orig.take(k) =~= orig);
        let session_name = session.name.clone();
        let mut tab_nodes: Vec<TabNode> = Vec::new();
        let mut sorted_rest = sorted;
        let mut groups_rest = groups;
        assert(st.skip(0) =~= st);
        while sorted_rest.len() > 0
            invariant
                tab_nodes@.len() <= st.len(),
                sorted_rest@ == st.skip(tab_nodes@.len() as int),
                groups_rest@.len() == sorted_rest@.len(),
                forall|j: int| 0 <= j < groups_rest@.len() ==> (#[trigger] groups_rest@[j])@ == panes_for_tab(st, j + tab_nodes@.len(), orig),
                forall|j: int|
                    0 <= j < tab_nodes@.len() ==> tab_built_from(
                        #[trigger] tab_nodes@[j],
                        session.name@,
                        st[j],
                        panes_for_tab(st, j, orig),
                        source_freshness,
                    ),
            decreases sorted_rest.len(),
        {
            let ghost n = tab_nodes@.len() as int;
            let tab = sorted_rest.remove(0);
            let group = groups_rest.remove(0);
            assert(st.skip(n).drop_first() =~= st.skip(n + 1));
            assert(group@ == panes_for_tab(st, n, orig));
            let node = TabNode::from_tab_info(session_name.as_str(), tab, group, source_freshness);
            tab_nodes.push(node);
        }
        let mut text = session.name.clone();
        text.append(" ");
        text.append(session_state_filter_token(session.state));
        text.append(" ");
        match &session.created_age {
            Some(age) => text.append(age.as_str()),
            None => text.append(""),
        }
        proof {
            reveal_strlit("");
        }
        let filter_text = lower_str(text.as_str());
        SessionNode {
            node_id: NodeId::Session { session_name: session_name.clone() },
            name: session_name,
            created_age: session.created_age,
            state: session.state,
            tabs: tab_nodes,
            source_freshness,
            filter_text,
        }
    }
}

impl NavigationModel {
    /// The tree of the given sessions' records, in their order.
    pub fn from_session_scoped_data(scoped_data: Vec<SessionScopedData>) -> (r: Self)
        ensures
            r.sessions@.len() == scoped_data@.len(),
            forall|i: int|
                0 <= i < scoped_data@.len() ==> session_built_from(
                    #[trigger] r.sessions@[i],
                    scoped_data@[i],
                ),
    {
        let ghost orig = scoped_data@;
        let mut rest = scoped_data;
        let mut sessions: Vec<SessionNode> = Vec::new();
        assert(orig.skip(0) =~= orig);
        while rest.len() > 0
            invariant
                sessions@.len() <= orig.len(),
                rest@ == orig.skip(sessions@.len() as int),
                forall|i: int|
                    0 <= i < sessions@.len() ==> session_built_from(#[trigger] sessions@[i], orig[i]),
            decreases rest.len(),
        {
            let ghost n = sessions@.len() as int;
            let d = rest.remove(0);
            assert(orig.skip(n).drop_first() =~= orig.skip(n + 1));
            sessions.push(SessionNode::from_session_scoped_data(d));
        }
        NavigationModel { sessions }
    }
}


/// A preview target and a selection action describe the same outcome: a session summary goes
/// with switching to that session, a tab summary with switching to that tab, a pane snapshot
/// with focusing that pane, and an unavailable preview with no action.
pub open spec fn preview_agrees_with_action(p: PreviewTargetView, a: SelectionActionView) -> bool {
    match p {
        PreviewTargetView::SessionSummary { session_name, .. } => a
            == SelectionActionView::SwitchSession { session_name },
        PreviewTargetView::TabSummary { session_name, tab_id, tab_position, .. } => a
            == SelectionActionView::SwitchTab { session_name, tab_id, tab_position },
        PreviewTargetView::PaneSnapshotCandidate {
            session_name,
            tab_id,
            tab_position,
            pane_id,
            ..
        } => a == SelectionActionView::FocusPane { session_name, tab_id, tab_position, pane_id },
        PreviewTargetView::Unavailable { .. } => a == SelectionActionView::NoAction,
    }
}

/// Preview routing and `Enter` agree on every node: a node previews as a session, tab or pane
/// exactly when selecting it stages switching to that session, switching to that tab or
/// focusing that pane, and a node without a preview (missing, plugin or non-selectable pane)
/// stages no action.
pub proof fn law_preview_and_action_agree(sessions: Seq<SessionNode>, id: NodeIdView)
    ensures
        preview_agrees_with_action(preview_spec(sessions, id), action_spec(sessions, id)),
{
    match id {
        NodeIdView::Session { session_name } => {
            lemma_session_index(sessions, session_name);
        },
        _ => {},
    }
}

proof fn lemma_session_index(sessions: Seq<SessionNode>, name: Seq<char>)
    ensures
        -1 <= session_index(sessions, name) < sessions.len(),
        session_index(sessions, name) >= 0 ==> sessions[session_index(sessions, name)].name@ == name,
{
    lemma_first_index(sessions, session_named(name));
}

/// Within each session, no two tabs share a tab id.
pub open spec fn tab_ids_unique(sessions: Seq<SessionNode>) -> bool {
    forall|s: int, i: int, j: int|
        0 <= s < sessions.len() && 0 <= i < sessions[s].tabs@.len() && 0 <= j
            < sessions[s].tabs@.len() && #[trigger] sessions[s].tabs@[i].tab_id
            == #[trigger] sessions[s].tabs@[j].tab_id ==> i == j
}

proof fn lemma_tab_index_by_id(tabs: Seq<TabNode>, tab_id: u64, tab_position: u64)
    requires
        forall|i: int, j: int|
            0 <= i < tabs.len() && 0 <= j < tabs.len() && #[trigger] tabs[i].tab_id
                == #[trigger] tabs[j].tab_id ==> i == j,
    ensures
        tab_index(tabs, tab_id, tab_position) == first_index(tabs, tab_with_id(tab_id)),
{
    let exact = tab_exact(tab_id, tab_position);
    let by_id = tab_with_id(tab_id);
    lemma_first_index(tabs, exact);
    lemma_first_index(tabs, by_id);
    let e = first_index(tabs, exact);
    let b = first_index(tabs, by_id);
    if e >= 0 {
        assert(by_id(tabs[e]));
        if b >= 0 && b != e {
            assert(tabs[b].tab_id == tabs[e].tab_id);
        }
    }
}

proof fn lemma_unique_in_session(sessions: Seq<SessionNode>, s: int)
    requires
        tab_ids_unique(sessions),
        0 <= s < sessions.len(),
    ensures
        forall|i: int, j: int|
            0 <= i < sessions[s].tabs@.len() && 0 <= j < sessions[s].tabs@.len()
                && #[trigger] sessions[s].tabs@[i].tab_id == #[trigger] sessions[s].tabs@[j].tab_id
                ==> i == j,
{
}

/// Identities survive a reordering of tabs: where tab ids are unique within each session, two
/// identities of the same node (equal but for the tab position they carry) resolve to the same
/// preview target and the same selection action.
pub proof fn law_resolution_ignores_stale_tab_position(
    sessions: Seq<SessionNode>,
    a: NodeIdView,
    b: NodeIdView,
)
    requires
        tab_ids_unique(sessions),
        same_node(a, b),
    ensures
        preview_spec(sessions, a) == preview_spec(sessions, b),
        action_spec(sessions, a) == action_spec(sessions, b),
{
    match (a, b) {
        (
            NodeIdView::Tab { session_name, tab_id, tab_position: pa },
            NodeIdView::Tab { tab_position: pb, .. },
        ) => {
            let si = session_index(sessions, session_name);
            lemma_session_index(sessions, session_name);
            if si >= 0 {
                lemma_unique_in_session(sessions, si);
                lemma_tab_index_by_id(sessions[si].tabs@, tab_id, pa);
                lemma_tab_index_by_id(sessions[si].tabs@, tab_id, pb);
            }
        },
        (
            NodeIdView::Pane { session_name, tab_id, tab_position: pa, .. },
            NodeIdView::Pane { tab_position: pb, .. },
        ) => {
            let si = session_index(sessions, session_name);
            lemma_session_index(sessions, session_name);
            if si >= 0 {
                lemma_unique_in_session(sessions, si);
                lemma_tab_index_by_id(sessions[si].tabs@, tab_id, pa);
                lemma_tab_index_by_id(sessions[si].tabs@, tab_id, pb);
            }
        },
        _ => {},
    }
}


/// The tab records are in `(position, tab_id)` order.
pub open spec fn tabs_sorted(s: Seq<TabInfo>) -> bool {
    forall|i: int, j: int| 0 <= i < j < s.len() ==> !tab_key_lt(#[trigger] s[j], #[trigger] s[i])
}

proof fn lemma_insert_sorted(s: Seq<TabInfo>, x: TabInfo)
    requires
        tabs_sorted(s),
    ensures
        tabs_sorted(insert_sorted(s, x)),
        insert_sorted(s, x).to_multiset() =~= s.to_multiset().insert(x),
{
    broadcast use vstd::seq_lib::group_to_multiset_ensures;

    let i = first_index(s, sorts_after(x));
    lemma_first_index(s, sorts_after(x));
    let t = insert_sorted(s, x);
    if i < 0 {
        assert forall|a: int, b: int| 0 <= a < b < t.len() implies !tab_key_lt(
            #[trigger] t[b],
            #[trigger] t[a],
        ) by {
            if b == s.len() {
                assert(!sorts_after(x)(s[a]));
            }
        }
    } else {
        assert forall|a: int, b: int| 0 <= a < b < t.len() implies !tab_key_lt(
            #[trigger] t[b],
            #[trigger] t[a],
        ) by {
            if a < i && b == i {
                assert(!sorts_after(x)(s[a]));
            } else if a == i && b > i {
                assert(sorts_after(x)(s[i]));
                assert(t[b] == s[b - 1]);
                if b - 1 > i {
                    assert(!tab_key_lt(s[b - 1], s[i]));
                }
            } else if a < i && b > i {
                assert(t[b] == s[b - 1]);
            } else if a > i {
                assert(t[a] == s[a - 1]);
                assert(t[b] == s[b - 1]);
            }
        }
        assert(t.remove(i) =~= s);
        assert(t[i] == x);
        assert(t.to_multiset().count(x) > 0) by {
            assert(t.contains(x));
        }
        assert(s.to_multiset() =~= t.to_multiset().remove(x));
    }
}

/// The order in which tabs are shown is a stable sort: it is in `(position, tab_id)` order and
/// holds exactly the given records, each as often as it was given.
pub proof fn law_tab_sort_is_sorted_permutation(s: Seq<TabInfo>)
    ensures
        tabs_sorted(tab_sort(s)),
        tab_sort(s).to_multiset() =~= s.to_multiset(),
    decreases s.len(),
{
    broadcast use vstd::seq_lib::group_to_multiset_ensures;

    if s.len() > 0 {
        law_tab_sort_is_sorted_permutation(s.drop_last());
        lemma_insert_sorted(tab_sort(s.drop_last()), s.last());
        assert(s.drop_last().push(s.last()) =~= s);
    }
}


/// The tabs of a built session are shown in ascending position, and tabs at the same position
/// in ascending id.
pub proof fn law_session_tabs_in_position_order(n: SessionNode, d: SessionScopedData)
    requires
        session_built_from(n, d),
    ensures
        forall|i: int, j: int|
            0 <= i < j < n.tabs@.len() ==> (#[trigger] n.tabs@[i]).tab_position < (
            #[trigger] n.tabs@[j]).tab_position || (n.tabs@[i].tab_position
                == n.tabs@[j].tab_position && n.tabs@[i].tab_id <= n.tabs@[j].tab_id),
{
    let sorted = tab_sort(d.tabs@);
    law_tab_sort_is_sorted_permutation(d.tabs@);
    assert forall|i: int, j: int| 0 <= i < j < n.tabs@.len() implies (#[trigger] n.tabs@[i]).tab_position
        < (#[trigger] n.tabs@[j]).tab_position || (n.tabs@[i].tab_position
        == n.tabs@[j].tab_position && n.tabs@[i].tab_id <= n.tabs@[j].tab_id) by {
        assert(tab_built_from(
            n.tabs@[i],
            d.session.name@,
            sorted[i],
            panes_for_tab(sorted, i, d.panes@),
            d.source_freshness,
        ));
        assert(tab_built_from(
            n.tabs@[j],
            d.session.name@,
            sorted[j],
            panes_for_tab(sorted, j, d.panes@),
            d.source_freshness,
        ));
        assert(!tab_key_lt(sorted[j], sorted[i]));
    }
}

/// `p` occurs in `a + p + b`.
proof fn lemma_contains_middle(a: Seq<char>, p: Seq<char>, b: Seq<char>)
    ensures
        contains_seq(a + p + b, p),
{
    let s = a + p + b;
    assert(p.is_prefix_of(s.skip(a.len() as int))) by {
        assert(s.skip(a.len() as int).take(p.len() as int) =~= p);
    }
    lemma_prefix_at_found(s, p, a.len() as int);
}

/// A text in which `p` starts at `k` contains `p`.
proof fn lemma_prefix_at_found(s: Seq<char>, p: Seq<char>, k: int)
    requires
        0 <= k <= s.len(),
        p.is_prefix_of(s.skip(k)),
    ensures
        find_seq(s, p) >= 0,
    decreases k,
{
    if k > 0 && !p.is_prefix_of(s) {
        assert(s.drop_first().skip(k - 1) =~= s.skip(k));
        lemma_prefix_at_found(s.drop_first(), p, k - 1);
    } else if k == 0 {
        assert(s.skip(0) =~= s);
    }
}

/// Lower-casing `a + p + b` lower-cases each part.
proof fn lemma_lower_concat3(a: Seq<char>, p: Seq<char>, b: Seq<char>)
    ensures
        lower_seq(a + p + b) == lower_seq(a) + lower_seq(p) + lower_seq(b),
{
    assert(lower_seq(a + p + b) =~= lower_seq(a) + lower_seq(p) + lower_seq(b));
}

/// A pane row can be found by its title, its commands and its working directory: the text that
/// filtering matches holds each of them, lower-cased.
#[verifier::spinoff_prover]
#[verifier::rlimit(40)]
pub proof fn law_pane_found_by_its_fields(
    n: PaneNode,
    session_name: Seq<char>,
    tab_id: u64,
    tab_position: u64,
    tab_name: Seq<char>,
    pane: PaneInfo,
    f: SourceFreshness,
)
    requires
        pane_built_from(n, session_name, tab_id, tab_position, tab_name, pane, f),
    ensures
        pane.title matches Some(t) ==> contains_seq(n.filter_text@, lower_seq(t@)),
        pane.terminal_command matches Some(c) ==> contains_seq(n.filter_text@, lower_seq(c@)),
        pane.pane_command matches Some(c) ==> contains_seq(n.filter_text@, lower_seq(c@)),
        pane.pane_cwd matches Some(c) ==> contains_seq(n.filter_text@, lower_seq(c@)),
{
    let head = tab_name + " "@ + decimal_seq(tab_position as nat) + " "@ + decimal_seq(tab_id as nat)
        + " "@ + decimal_seq(pane.id as nat) + " "@ + pane_kind_token(kind_of(pane)) + " "@;
    let title = opt_text(pane.title);
    let tc = opt_text(pane.terminal_command);
    let pc = opt_text(pane.pane_command);
    let loc = pane_location(pane);
    let whole = head + title + " "@ + tc + " "@ + pc + " "@ + loc;
    assert(n.filter_text@ == lower_seq(whole));
    assert(contains_seq(lower_seq(whole), lower_seq(title))) by {
        assert(whole =~= head + title + (" "@ + tc + " "@ + pc + " "@ + loc));
        lemma_lower_holds_part(head, title, " "@ + tc + " "@ + pc + " "@ + loc);
    }
    assert(contains_seq(lower_seq(whole), lower_seq(tc))) by {
        assert(whole =~= (head + title + " "@) + tc + (" "@ + pc + " "@ + loc));
        lemma_lower_holds_part(head + title + " "@, tc, " "@ + pc + " "@ + loc);
    }
    assert(contains_seq(lower_seq(whole), lower_seq(pc))) by {
        assert(whole =~= (head + title + " "@ + tc + " "@) + pc + (" "@ + loc));
        lemma_lower_holds_part(head + title + " "@ + tc + " "@, pc, " "@ + loc);
    }
    assert(contains_seq(lower_seq(whole), lower_seq(loc))) by {
        assert(whole =~= (head + title + " "@ + tc + " "@ + pc + " "@) + loc + seq![]);
        lemma_lower_holds_part(head + title + " "@ + tc + " "@ + pc + " "@, loc, seq![]);
    }
}

/// Session and tab rows can be found by their names, and a pane row by the name of its tab:
/// the text that filtering matches holds each name, lower-cased.
#[verifier::spinoff_prover]
pub proof fn law_rows_found_by_their_names(
    sn: SessionNode,
    d: SessionScopedData,
    tn: TabNode,
    session_name: Seq<char>,
    tab: TabInfo,
    panes: Seq<PaneInfo>,
    f: SourceFreshness,
    pn: PaneNode,
    pane: PaneInfo,
)
    ensures
        session_built_from(sn, d) ==> contains_seq(sn.filter_text@, lower_seq(d.session.name@)),
        tab_built_from(tn, session_name, tab, panes, f) ==> contains_seq(
            tn.filter_text@,
            lower_seq(tab.name@),
        ),
        pane_built_from(pn, session_name, tab.tab_id, tab.position, tab.name@, pane, f)
            ==> contains_seq(pn.filter_text@, lower_seq(tab.name@)),
{
    assert(contains_seq(session_filter_text(d.session), lower_seq(d.session.name@))) by {
        let st = " "@ + session_state_token(d.session.state) + " "@ + opt_text(d.session.created_age);
        assert(d.session.name@ + " "@ + session_state_token(d.session.state) + " "@ + opt_text(
            d.session.created_age,
        ) =~= seq![] + d.session.name@ + st);
        lemma_lower_holds_part(seq![], d.session.name@, st);
    }
    assert(contains_seq(tab_filter_text(tab), lower_seq(tab.name@))) by {
        let tt = " "@ + decimal_seq(tab.position as nat) + " "@ + decimal_seq(tab.tab_id as nat);
        assert(tab.name@ + " "@ + decimal_seq(tab.position as nat) + " "@ + decimal_seq(
            tab.tab_id as nat,
        ) =~= seq![] + tab.name@ + tt);
        lemma_lower_holds_part(seq![], tab.name@, tt);
    }
    assert(contains_seq(
        pane_filter_text(tab.name@, tab.position, tab.tab_id, pane),
        lower_seq(tab.name@),
    )) by {
        lemma_pane_text_holds_tab_name(tab.name@, tab.position, tab.tab_id, pane);
    }
}

/// A pane row's filter text holds the lower-cased name of its tab.
#[verifier::spinoff_prover]
proof fn lemma_pane_text_holds_tab_name(tab_name: Seq<char>, tab_position: u64, tab_id: u64, pane: PaneInfo)
    ensures
        contains_seq(pane_filter_text(tab_name, tab_position, tab_id, pane), lower_seq(tab_name)),
{
    let rest = " "@ + decimal_seq(tab_position as nat) + " "@ + decimal_seq(tab_id as nat) + " "@
        + decimal_seq(pane.id as nat) + " "@ + pane_kind_token(kind_of(pane)) + " "@ + opt_text(
        pane.title,
    ) + " "@ + opt_text(pane.terminal_command) + " "@ + opt_text(pane.pane_command) + " "@
        + pane_location(pane);
    let whole = tab_name + " "@ + decimal_seq(tab_position as nat) + " "@ + decimal_seq(
        tab_id as nat,
    ) + " "@ + decimal_seq(pane.id as nat) + " "@ + pane_kind_token(kind_of(pane)) + " "@
        + opt_text(pane.title) + " "@ + opt_text(pane.terminal_command) + " "@ + opt_text(
        pane.pane_command,
    ) + " "@ + pane_location(pane);
    assert(pane_filter_text(tab_name, tab_position, tab_id, pane) == lower_seq(whole));
    assert(whole =~= seq![] + tab_name + rest);
    lemma_lower_holds_part(seq![], tab_name, rest);
}

/// The lower-cased form of `pre + x + post` holds the lower-cased `x`.
proof fn lemma_lower_holds_part(pre: Seq<char>, x: Seq<char>, post: Seq<char>)
    ensures
        contains_seq(lower_seq(pre + x + post), lower_seq(x)),
{
    lemma_lower_concat3(pre, x, post);
    lemma_contains_middle(lower_seq(pre), lower_seq(x), lower_seq(post));
}

/// Filtering ignores ASCII case and surrounding white space: two queries that are equal once
/// trimmed and ASCII lower-cased show the same rows.
pub proof fn law_filter_ignores_case_and_padding(sessions: Seq<SessionNode>, q1: Seq<char>, q2: Seq<char>)
    requires
        lower_seq(trim_seq(q1)) == lower_seq(trim_seq(q2)),
    ensures
        visible_rows(sessions, q1) == visible_rows(sessions, q2),
{
}

/// Upper- and lower-case forms of a query show the same rows.
pub proof fn law_filter_is_case_insensitive(sessions: Seq<SessionNode>, q: Seq<char>)
    ensures
        visible_rows(sessions, lower_seq(q)) == visible_rows(sessions, q),
{
    lemma_trim_lower(q);
    lemma_lower_idempotent(trim_seq(q));
}

/// Upper-casing a query, or putting a space before and after it, shows the same rows; and a
/// query that is blank once trimmed shows every row, as no query does.
pub proof fn law_filter_ignores_upper_case_and_spaces(sessions: Seq<SessionNode>, q: Seq<char>)
    ensures
        visible_rows(sessions, upper_seq(q)) == visible_rows(sessions, q),
        visible_rows(sessions, seq![' '] + q + seq![' ']) == visible_rows(sessions, q),
        trim_seq(q).len() == 0 ==> visible_rows(sessions, q) == model_rows(
            sessions,
            seq![],
            sessions.len() as int,
        ),
{
    lemma_trim_lower(upper_seq(q));
    lemma_lower_upper(q);
    lemma_trim_lower(q);
    lemma_trim_padded(q);
    if trim_seq(q).len() == 0 {
        assert(normalize_spec(q) =~= seq![]);
    }
}

proof fn lemma_pane_rows_unfiltered(sessions: Seq<SessionNode>, s: int, t: int, k: int)
    requires
        k >= 0,
    ensures
        pane_rows(sessions, s, t, seq![], k).len() == k,
        forall|p: int| 0 <= p < k ==> #[trigger] pane_rows(sessions, s, t, seq![], k)[p]
            == (RowRef::Pane { s, t, p }),
    decreases k,
{
    if k > 0 {
        lemma_pane_rows_unfiltered(sessions, s, t, k - 1);
    }
}

/// Without a filter every node is shown: each tab row is followed by a row for every one of its
/// panes, in order, and each session row by the rows of all its tabs.
pub proof fn law_unfiltered_shows_every_node(sessions: Seq<SessionNode>, s: int, t: int)
    requires
        0 <= s < sessions.len(),
        0 <= t < sessions[s].tabs@.len(),
    ensures
        tab_rows(sessions, s, t, seq![]).len() == sessions[s].tabs@[t].panes@.len() + 1,
        tab_rows(sessions, s, t, seq![])[0] == (RowRef::Tab { s, t }),
        forall|p: int|
            0 <= p < sessions[s].tabs@[t].panes@.len() ==> #[trigger] tab_rows(
                sessions,
                s,
                t,
                seq![],
            )[p + 1] == (RowRef::Pane { s, t, p }),
        session_rows(sessions, s, seq![])[0] == (RowRef::Session { s }),
        session_rows(sessions, s, seq![]).len() == 1 + session_tab_rows(
            sessions,
            s,
            seq![],
            sessions[s].tabs@.len() as int,
        ).len(),
{
    lemma_pane_rows_unfiltered(sessions, s, t, sessions[s].tabs@[t].panes@.len() as int);
}

} // verus!
