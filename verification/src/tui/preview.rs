//! The pane snapshot preview: which request is current, what its result shows, and which
//! live update still belongs to it.
//!
//! The controller decides; the caller runs the background subscription that
//! [`SnapshotPreviewController::live_worker`] asks for and hands its frames back through
//! [`SnapshotPreviewController::apply_live_update`].

use std::sync::Arc;

use vstd::prelude::*;

use crate::navigation_model::{str_eq, PreviewTarget, PreviewTargetView, SourceFreshness};
use crate::runtime_discovery::parsing::ParseError;
use crate::runtime_discovery::{
    description_of, dump_flow, dump_screen_args, error_message, handed_of, lines_handled,
    ran_unless_stopped, ZELLIJ_PROGRAM,
    subscribe_args, subscription_end, LineStep, SnapshotCallback,
    CommandOutput, CommandRunner, CommandRunnerError, PaneSnapshot, RuntimeDiscovery,
    RuntimeDiscoveryError,
};
use crate::text::concat3;

verus! {

/// The pane whose screen the preview shows.
#[derive(Debug, Clone, PartialEq, Eq)]
pub struct PaneSnapshotRequest {
    pub session_name: String,
    pub tab_id: u64,
    pub tab_position: u64,
    pub pane_id: u64,
}

/// The mathematical value of a snapshot request.
pub struct PaneSnapshotRequestView {
    pub session_name: Seq<char>,
    pub tab_id: u64,
    pub tab_position: u64,
    pub pane_id: u64,
}

impl View for PaneSnapshotRequest {
    type V = PaneSnapshotRequestView;

    open spec fn view(&self) -> PaneSnapshotRequestView {
        PaneSnapshotRequestView {
            session_name: self.session_name@,
            tab_id: self.tab_id,
            tab_position: self.tab_position,
            pane_id: self.pane_id,
        }
    }
}

impl PaneSnapshotRequest {
    /// A copy of the request.
    pub fn duplicate(&self) -> (r: Self)
        ensures
            r@ == self@,
    {
        PaneSnapshotRequest {
            session_name: self.session_name.clone(),
            tab_id: self.tab_id,
            tab_position: self.tab_position,
            pane_id: self.pane_id,
        }
    }

    /// Whether two requests name the same pane.
    pub fn same_as(&self, other: &Self) -> (r: bool)
        ensures
            r == (self@ == other@),
    {
        str_eq(self.session_name.as_str(), other.session_name.as_str()) && self.tab_id
            == other.tab_id && self.tab_position == other.tab_position && self.pane_id
            == other.pane_id
    }
}

/// What the preview panel shows for the selected pane.
#[derive(Debug, Clone, PartialEq, Eq)]
pub enum SnapshotPreviewState {
    Unavailable { reason: String },
    Stale { request: PaneSnapshotRequest },
    Loading { request: PaneSnapshotRequest },
    Ready { request: PaneSnapshotRequest, body: String },
    Empty { request: PaneSnapshotRequest },
    Error { request: PaneSnapshotRequest, message: String },
}

/// The mathematical value of a preview state.
pub enum SnapshotPreviewStateView {
    Unavailable { reason: Seq<char> },
    Stale { request: PaneSnapshotRequestView },
    Loading { request: PaneSnapshotRequestView },
    Ready { request: PaneSnapshotRequestView, body: Seq<char> },
    Empty { request: PaneSnapshotRequestView },
    Error { request: PaneSnapshotRequestView, message: Seq<char> },
}

impl View for SnapshotPreviewState {
    type V = SnapshotPreviewStateView;

    open spec fn view(&self) -> SnapshotPreviewStateView {
        match self {
            SnapshotPreviewState::Unavailable { reason } => SnapshotPreviewStateView::Unavailable {
                reason: reason@,
            },
            SnapshotPreviewState::Stale { request } => SnapshotPreviewStateView::Stale {
                request: request@,
            },
            SnapshotPreviewState::Loading { request } => SnapshotPreviewStateView::Loading {
                request: request@,
            },
            SnapshotPreviewState::Ready { request, body } => SnapshotPreviewStateView::Ready {
                request: request@,
                body: body@,
            },
            SnapshotPreviewState::Empty { request } => SnapshotPreviewStateView::Empty {
                request: request@,
            },
            SnapshotPreviewState::Error { request, message } => SnapshotPreviewStateView::Error {
                request: request@,
                message: message@,
            },
        }
    }
}

impl SnapshotPreviewState {
    /// Whether two preview states show the same thing.
    pub fn same_as(&self, other: &Self) -> (r: bool)
        ensures
            r == (self@ == other@),
    {
        match (self, other) {
            (
                SnapshotPreviewState::Unavailable { reason: a },
                SnapshotPreviewState::Unavailable { reason: b },
            ) => str_eq(a.as_str(), b.as_str()),
            (
                SnapshotPreviewState::Stale { request: a },
                SnapshotPreviewState::Stale { request: b },
            ) => a.same_as(b),
            (
                SnapshotPreviewState::Loading { request: a },
                SnapshotPreviewState::Loading { request: b },
            ) => a.same_as(b),
            (
                SnapshotPreviewState::Ready { request: a, body: x },
                SnapshotPreviewState::Ready { request: b, body: y },
            ) => a.same_as(b) && str_eq(x.as_str(), y.as_str()),
            (
                SnapshotPreviewState::Empty { request: a },
                SnapshotPreviewState::Empty { request: b },
            ) => a.same_as(b),
            (
                SnapshotPreviewState::Error { request: a, message: x },
                SnapshotPreviewState::Error { request: b, message: y },
            ) => a.same_as(b) && str_eq(x.as_str(), y.as_str()),
            _ => false,
        }
    }
}

/// Loads pane screens for the preview; the caller implements it (over the Zellij CLI, or
/// over fixed frames).
pub trait SnapshotLoader: Send + Sync {
    /// `r` is a result that loading the screen of `request` can give; a loader that does not
    /// say admits any result.
    open spec fn loads(
        &self,
        request: PaneSnapshotRequestView,
        r: Result<PaneSnapshot, RuntimeDiscoveryError>,
    ) -> bool {
        true
    }

    /// The screen of the requested pane.
    fn load_snapshot(&self, request: &PaneSnapshotRequest) -> (r: Result<
        PaneSnapshot,
        RuntimeDiscoveryError,
    >)
        ensures
            self.loads(request@, r),
    ;

    /// The screen of the requested pane, unless `is_cancelled` stops the load.
    fn load_snapshot_with_cancel<C: Fn() -> bool>(
        &self,
        request: &PaneSnapshotRequest,
        is_cancelled: &C,
    ) -> (r: Result<PaneSnapshot, RuntimeDiscoveryError>)
        requires
            is_cancelled.requires(()),
        ensures
            !(r matches Err(RuntimeDiscoveryError::Cancelled { .. })) ==> self.loads(request@, r),
        default_ensures
            (is_cancelled.ensures((), true) && (r matches Err(
                RuntimeDiscoveryError::Cancelled { command },
            ) && command@ == "snapshot loader invocation"@)) || (is_cancelled.ensures((), false)
                && self.loads(request@, r)),
    {
        if is_cancelled() {
            proof {
                reveal_strlit("snapshot loader invocation");
            }
            return Err(
                RuntimeDiscoveryError::Cancelled { command: "snapshot loader invocation".to_owned() },
            );
        }
        self.load_snapshot(request)
    }

    /// Hands the screens of the requested pane to `on_snapshot` as they change, until
    /// `is_cancelled` stops it; by default, one screen.
    fn subscribe_live_snapshots_with_cancel<F: FnMut(PaneSnapshot), C: Fn() -> bool>(
        &self,
        request: &PaneSnapshotRequest,
        on_snapshot: F,
        is_cancelled: &C,
    ) -> (r: Result<(), RuntimeDiscoveryError>)
        requires
            is_cancelled.requires(()),
            forall|s: PaneSnapshot| on_snapshot.requires((s,)),
        default_ensures
            r is Ok ==> is_cancelled.ensures((), false) && exists|s: PaneSnapshot|
                #[trigger] self.loads(request@, Ok(s)),
            r matches Err(e) ==> (e is Cancelled || self.loads(request@, Err(e))),
    {
        if is_cancelled() {
            return Err(
                RuntimeDiscoveryError::Cancelled { command: "snapshot live subscription".to_owned() },
            );
        }
        let snapshot = self.load_snapshot_with_cancel(request, is_cancelled)?;
        if is_cancelled() {
            return Err(
                RuntimeDiscoveryError::Cancelled { command: "snapshot live subscription".to_owned() },
            );
        }
        let mut on_snapshot = on_snapshot;
        on_snapshot(snapshot);
        Ok(())
    }
}

impl<T: SnapshotLoader> SnapshotLoader for Arc<T> {
    open spec fn loads(
        &self,
        request: PaneSnapshotRequestView,
        r: Result<PaneSnapshot, RuntimeDiscoveryError>,
    ) -> bool {
        (**self).loads(request, r)
    }

    fn load_snapshot(&self, request: &PaneSnapshotRequest) -> Result<
        PaneSnapshot,
        RuntimeDiscoveryError,
    > {
        let inner: &T = &**self;
        inner.load_snapshot(request)
    }

    fn load_snapshot_with_cancel<C: Fn() -> bool>(
        &self,
        request: &PaneSnapshotRequest,
        is_cancelled: &C,
    ) -> Result<PaneSnapshot, RuntimeDiscoveryError> {
        let inner: &T = &**self;
        inner.load_snapshot_with_cancel(request, is_cancelled)
    }

    fn subscribe_live_snapshots_with_cancel<F: FnMut(PaneSnapshot), C: Fn() -> bool>(
        &self,
        request: &PaneSnapshotRequest,
        on_snapshot: F,
        is_cancelled: &C,
    ) -> Result<(), RuntimeDiscoveryError> {
        let inner: &T = &**self;
        inner.subscribe_live_snapshots_with_cancel(request, on_snapshot, is_cancelled)
    }
}

impl<T: SnapshotLoader> SnapshotLoader for Box<T> {
    open spec fn loads(
        &self,
        request: PaneSnapshotRequestView,
        r: Result<PaneSnapshot, RuntimeDiscoveryError>,
    ) -> bool {
        (**self).loads(request, r)
    }

    fn load_snapshot(&self, request: &PaneSnapshotRequest) -> Result<
        PaneSnapshot,
        RuntimeDiscoveryError,
    > {
        let inner: &T = &**self;
        inner.load_snapshot(request)
    }

    fn load_snapshot_with_cancel<C: Fn() -> bool>(
        &self,
        request: &PaneSnapshotRequest,
        is_cancelled: &C,
    ) -> Result<PaneSnapshot, RuntimeDiscoveryError> {
        let inner: &T = &**self;
        inner.load_snapshot_with_cancel(request, is_cancelled)
    }

    fn subscribe_live_snapshots_with_cancel<F: FnMut(PaneSnapshot), C: Fn() -> bool>(
        &self,
        request: &PaneSnapshotRequest,
        on_snapshot: F,
        is_cancelled: &C,
    ) -> Result<(), RuntimeDiscoveryError> {
        let inner: &T = &**self;
        inner.subscribe_live_snapshots_with_cancel(request, on_snapshot, is_cancelled)
    }
}

impl<R: CommandRunner + Send + Sync> SnapshotLoader for RuntimeDiscovery<R> {
    open spec fn loads(
        &self,
        request: PaneSnapshotRequestView,
        r: Result<PaneSnapshot, RuntimeDiscoveryError>,
    ) -> bool {
        exists|result: Result<CommandOutput, CommandRunnerError>|
            #[trigger] dump_flow(
                description_of(dump_screen_args(request.session_name, request.pane_id)),
                result,
                r,
            ) && self.runner_spec().runs(
                ZELLIJ_PROGRAM@,
                dump_screen_args(request.session_name, request.pane_id),
                result,
            )
    }

    fn load_snapshot(&self, request: &PaneSnapshotRequest) -> (r: Result<
        PaneSnapshot,
        RuntimeDiscoveryError,
    >) {
        let r = self.dump_screen_for_pane(request.session_name.as_str(), request.pane_id);
        proof {
            let command = description_of(dump_screen_args(request@.session_name, request@.pane_id));
            let args = dump_screen_args(request@.session_name, request@.pane_id);
            let w = choose|result: Result<CommandOutput, CommandRunnerError>|
                dump_flow(command, result, r) && self.runner_spec().runs(ZELLIJ_PROGRAM@, args, result);
            assert(dump_flow(command, w, r) && self.runner_spec().runs(ZELLIJ_PROGRAM@, args, w));
        }
        r
    }

    fn load_snapshot_with_cancel<C: Fn() -> bool>(
        &self,
        request: &PaneSnapshotRequest,
        is_cancelled: &C,
    ) -> (r: Result<PaneSnapshot, RuntimeDiscoveryError>)
        ensures
            self.loads(request@, r) || (r matches Err(RuntimeDiscoveryError::Cancelled { .. })
                && is_cancelled.ensures((), true)),
    {
        let r = self.dump_screen_for_pane_with_cancel(
            request.session_name.as_str(),
            request.pane_id,
            is_cancelled,
        );
        proof {
            let command = description_of(dump_screen_args(request@.session_name, request@.pane_id));
            let args = dump_screen_args(request@.session_name, request@.pane_id);
            let w = choose|result: Result<CommandOutput, CommandRunnerError>|
                dump_flow(command, result, r) && ran_unless_stopped(
                    self.runner_spec(),
                    args,
                    result,
                    is_cancelled,
                );
            assert(dump_flow(command, w, r) && ran_unless_stopped(
                self.runner_spec(),
                args,
                w,
                is_cancelled,
            ));
        }
        r
    }

    fn subscribe_live_snapshots_with_cancel<F: FnMut(PaneSnapshot), C: Fn() -> bool>(
        &self,
        request: &PaneSnapshotRequest,
        on_snapshot: F,
        is_cancelled: &C,
    ) -> (r: Result<(), RuntimeDiscoveryError>)
        ensures
            exists|result: Result<CommandOutput, CommandRunnerError>, parse_error: Option<ParseError>|
                #[trigger] subscription_end(
                    description_of(subscribe_args(request@.session_name, request@.pane_id)),
                    result,
                    parse_error,
                    r,
                ) && (ran_unless_stopped(
                    self.runner_spec(),
                    subscribe_args(request@.session_name, request@.pane_id),
                    result,
                    is_cancelled,
                ) || (result matches Err(CommandRunnerError::Cancelled) && parse_error is Some)),
    {
        let mut sink = SnapshotCallback::new(on_snapshot);
        let r = self.subscribe_pane_updates_with_cancel(
            request.session_name.as_str(),
            request.pane_id,
            &mut sink,
            is_cancelled,
        );
        proof {
            let command = description_of(subscribe_args(request@.session_name, request@.pane_id));
            let args = subscribe_args(request@.session_name, request@.pane_id);
            let (w, l, t, p) = choose|
                result: Result<CommandOutput, CommandRunnerError>,
                lines: Seq<Seq<char>>,
                steps: Seq<LineStep>,
                parse_error: Option<ParseError>,
            |
                subscription_end(command, result, parse_error, r) && (ran_unless_stopped(
                    self.runner_spec(),
                    args,
                    result,
                    is_cancelled,
                ) || (result matches Err(CommandRunnerError::Cancelled) && parse_error is Some))
                    && lines_handled(lines, steps, parse_error) && sink.received() == handed_of(steps);
            assert(subscription_end(command, w, p, r) && (ran_unless_stopped(
                self.runner_spec(),
                args,
                w,
                is_cancelled,
            ) || (w matches Err(CommandRunnerError::Cancelled) && p is Some)));
        }
        r
    }
}

/// A loader that loads nothing, for a controller that has no loader.
pub struct NoLoader;

impl SnapshotLoader for NoLoader {
    open spec fn loads(
        &self,
        request: PaneSnapshotRequestView,
        r: Result<PaneSnapshot, RuntimeDiscoveryError>,
    ) -> bool {
        r matches Err(RuntimeDiscoveryError::Cancelled { command }) && command@
            == "snapshot loader is disabled"@
    }

    fn load_snapshot(&self, request: &PaneSnapshotRequest) -> (r: Result<
        PaneSnapshot,
        RuntimeDiscoveryError,
    >) {
        proof {
            reveal_strlit("snapshot loader is disabled");
        }
        Err(RuntimeDiscoveryError::Cancelled { command: "snapshot loader is disabled".to_owned() })
    }
}

/// A load that was started: its number, and the pane it is for.
#[derive(Debug, Clone, PartialEq, Eq)]
pub struct PendingSnapshotRequest {
    pub request_id: u64,
    pub request: PaneSnapshotRequest,
}

/// What a live subscription reports: a screen, or why it stopped.
#[derive(Debug, Clone, PartialEq, Eq)]
pub enum LivePreviewPayload {
    Snapshot(PaneSnapshot),
    Error(String),
}

/// One report of a live subscription, with the load it belongs to.
#[derive(Debug, Clone, PartialEq, Eq)]
pub struct LivePreviewUpdate {
    pub request_id: u64,
    pub request: PaneSnapshotRequest,
    pub payload: LivePreviewPayload,
}

/// The background subscription the preview wants running: the load it belongs to.
#[derive(Debug, Clone, PartialEq, Eq)]
pub struct LiveWorker {
    pub request_id: u64,
    pub request: PaneSnapshotRequest,
}

/// The reason shown when the selection has no pane to preview.
pub open spec fn no_target_reason() -> Seq<char> {
    "selection has no pane snapshot target"@
}

/// The reason shown when there is no loader.
pub open spec fn loader_disabled_reason() -> Seq<char> {
    "snapshot loader is disabled"@
}

/// The number after `n`, wrapping to `0` after the largest.
pub open spec fn next_request_id(n: u64) -> u64 {
    if n == u64::MAX {
        0
    } else {
        (n + 1) as u64
    }
}

/// Whether live updates follow a selection whose data has this freshness.
pub open spec fn supports_live(f: SourceFreshness) -> bool {
    f == SourceFreshness::Runtime || f == SourceFreshness::Subscription
}

/// Whether live updates follow a selection whose data has this freshness: runtime and
/// subscription data do.
pub fn source_supports_live_updates(source_freshness: SourceFreshness) -> (b: bool)
    ensures
        b == supports_live(source_freshness),
{
    match source_freshness {
        SourceFreshness::Runtime | SourceFreshness::Subscription => true,
        _ => false,
    }
}

/// The request for a preview target that is a pane snapshot candidate, with the freshness
/// of its data.
pub open spec fn request_of_target(t: PreviewTargetView) -> Option<
    (PaneSnapshotRequestView, SourceFreshness),
> {
    match t {
        PreviewTargetView::PaneSnapshotCandidate {
            session_name,
            tab_id,
            tab_position,
            pane_id,
            source_freshness,
        } => Some(
            (
                PaneSnapshotRequestView { session_name, tab_id, tab_position, pane_id },
                source_freshness,
            ),
        ),
        _ => None,
    }
}

/// The snapshot request of a preview target, and the freshness of its data; `None` for a
/// target that is not a pane snapshot candidate.
pub fn request_from_preview_target(preview_target: &PreviewTarget) -> (r: Option<
    (PaneSnapshotRequest, SourceFreshness),
>)
    ensures
        match (r, request_of_target(preview_target@)) {
            (Some((q, f)), Some((qv, fv))) => q@ == qv && f == fv,
            (None, None) => true,
            _ => false,
        },
{
    match preview_target {
        PreviewTarget::PaneSnapshotCandidate {
            session_name,
            tab_id,
            tab_position,
            pane_id,
            source_freshness,
        } => Some(
            (
                PaneSnapshotRequest {
                    session_name: session_name.clone(),
                    tab_id: *tab_id,
                    tab_position: *tab_position,
                    pane_id: *pane_id,
                },
                *source_freshness,
            ),
        ),
        _ => None,
    }
}

/// `s` is what a load's result shows: its screen, an empty screen, or an error whose message
/// is the error's.
pub open spec fn result_state(
    request: PaneSnapshotRequestView,
    result: Result<PaneSnapshot, RuntimeDiscoveryError>,
    s: SnapshotPreviewStateView,
) -> bool {
    match result {
        Ok(PaneSnapshot::Ready(body)) => s == SnapshotPreviewStateView::Ready {
            request,
            body: body@,
        },
        Ok(PaneSnapshot::Empty) => s == SnapshotPreviewStateView::Empty { request },
        Err(e) => s matches SnapshotPreviewStateView::Error { request: q, message } && q == request
            && error_message(e, message),
    }
}

/// The state a live report shows.
pub open spec fn payload_state(
    request: PaneSnapshotRequestView,
    payload: LivePreviewPayload,
) -> SnapshotPreviewStateView {
    match payload {
        LivePreviewPayload::Snapshot(PaneSnapshot::Ready(body)) => SnapshotPreviewStateView::Ready {
            request,
            body: body@,
        },
        LivePreviewPayload::Snapshot(PaneSnapshot::Empty) => SnapshotPreviewStateView::Empty {
            request,
        },
        LivePreviewPayload::Error(message) => SnapshotPreviewStateView::Error {
            request,
            message: message@,
        },
    }
}

/// The optional request's value.
pub open spec fn opt_request(o: Option<PaneSnapshotRequest>) -> Option<PaneSnapshotRequestView> {
    match o {
        Some(q) => Some(q@),
        None => None,
    }
}

/// The optional worker's value: its load number and pane.
pub open spec fn opt_worker(o: Option<LiveWorker>) -> Option<(u64, PaneSnapshotRequestView)> {
    match o {
        Some(w) => Some((w.request_id, w.request@)),
        None => None,
    }
}

/// `new` is the preview after following a selection whose target is `t`, from `old`.
pub open spec fn refreshed<L: SnapshotLoader>(
    old: SnapshotPreviewController<L>,
    new: SnapshotPreviewController<L>,
    t: PreviewTargetView,
) -> bool {
    &&& new.has_loader() == old.has_loader()
    &&& match request_of_target(t) {
        None => {
            &&& new.active_id() is None
            &&& new.active_request_view() is None
            &&& new.worker() is None
            &&& new.counter() == old.counter()
            &&& new.state_view() == (SnapshotPreviewStateView::Unavailable {
                reason: no_target_reason(),
            })
        },
        Some((q, f)) => if f == SourceFreshness::Stale {
            &&& new.active_id() is None
            &&& new.active_request_view() is None
            &&& new.worker() is None
            &&& new.counter() == old.counter()
            &&& new.state_view() == (SnapshotPreviewStateView::Stale { request: q })
        } else if !old.has_loader() {
            &&& new.active_id() is None
            &&& new.active_request_view() is None
            &&& new.worker() is None
            &&& new.counter() == old.counter()
            &&& new.state_view() == (SnapshotPreviewStateView::Unavailable {
                reason: loader_disabled_reason(),
            })
        } else if old.active_request_view() == Some(q) && old.active_id() is Some
            && supports_live(f) {
            &&& new.active_id() == old.active_id()
            &&& new.active_request_view() == old.active_request_view()
            &&& new.counter() == old.counter()
            &&& new.state_view() == old.state_view()
            &&& new.worker() == (if old.worker() is None {
                Some((old.active_id()->0, q))
            } else {
                old.worker()
            })
        } else {
            let id = next_request_id(old.counter());
            &&& new.counter() == id
            &&& new.active_id() == Some(id)
            &&& new.active_request_view() == Some(q)
            &&& exists|result: Result<PaneSnapshot, RuntimeDiscoveryError>|
                #[trigger] old.loader_spec().loads(q, result) && result_state(
                    q,
                    result,
                    new.state_view(),
                )
            &&& new.worker() == (if supports_live(f) {
                Some((id, q))
            } else {
                None
            })
        },
    }
}

/// Decides what the preview shows for the selection, which load is current, and which live
/// subscription should run.
pub struct SnapshotPreviewController<L: SnapshotLoader> {
    loader: Option<L>,
    state: SnapshotPreviewState,
    active_request_id: Option<u64>,
    active_request: Option<PaneSnapshotRequest>,
    request_counter: u64,
    live_worker: Option<LiveWorker>,
}

impl SnapshotPreviewController<NoLoader> {
    /// A preview without a loader.
    pub fn disabled() -> (r: Self)
        ensures
            !r.has_loader(),
            r.state_view() == (SnapshotPreviewStateView::Unavailable { reason: no_target_reason() }),
            r.active_id() is None,
            r.active_request_view() is None,
            r.counter() == 0,
            r.worker() is None,
    {
        SnapshotPreviewController {
            loader: None,
            state: SnapshotPreviewState::Unavailable {
                reason: "selection has no pane snapshot target".to_owned(),
            },
            active_request_id: None,
            active_request: None,
            request_counter: 0,
            live_worker: None,
        }
    }
}

impl<L: SnapshotLoader> SnapshotPreviewController<L> {
    /// Whether the preview has a loader.
    pub closed spec fn has_loader(&self) -> bool {
        self.loader is Some
    }

    /// The loader, when there is one.
    pub closed spec fn loader_spec(&self) -> L {
        self.loader->Some_0
    }

    /// What the preview shows.
    pub closed spec fn state_view(&self) -> SnapshotPreviewStateView {
        self.state@
    }

    /// The number of the current load.
    pub closed spec fn active_id(&self) -> Option<u64> {
        self.active_request_id
    }

    /// The pane of the current load.
    pub closed spec fn active_request_view(&self) -> Option<PaneSnapshotRequestView> {
        opt_request(self.active_request)
    }

    /// The number of the last load started.
    pub closed spec fn counter(&self) -> u64 {
        self.request_counter
    }

    /// The live subscription that should run.
    pub closed spec fn worker(&self) -> Option<(u64, PaneSnapshotRequestView)> {
        opt_worker(self.live_worker)
    }

    /// A preview that loads with `loader`.
    pub fn with_loader(loader: L) -> (r: Self)
        ensures
            r.has_loader(),
            r.state_view() == (SnapshotPreviewStateView::Unavailable { reason: no_target_reason() }),
            r.active_id() is None,
            r.active_request_view() is None,
            r.counter() == 0,
            r.worker() is None,
    {
        SnapshotPreviewController {
            loader: Some(loader),
            state: SnapshotPreviewState::Unavailable {
                reason: "selection has no pane snapshot target".to_owned(),
            },
            active_request_id: None,
            active_request: None,
            request_counter: 0,
            live_worker: None,
        }
    }

    /// What the preview shows.
    pub fn state(&self) -> (r: &SnapshotPreviewState)
        ensures
            r@ == self.state_view(),
    {
        &self.state
    }

    /// The loader, if any.
    pub fn loader(&self) -> (r: Option<&L>)
        ensures
            r is Some == self.has_loader(),
    {
        self.loader.as_ref()
    }

    /// The live subscription that should run, if any.
    pub fn live_worker(&self) -> (r: Option<LiveWorker>)
        ensures
            opt_worker(r) == self.worker(),
    {
        match &self.live_worker {
            Some(w) => Some(LiveWorker { request_id: w.request_id, request: w.request.duplicate() }),
            None => None,
        }
    }

    /// No live subscription should run any more.
    pub fn stop_live_worker(&mut self)
        ensures
            final(self).worker() is None,
            final(self).state_view() == old(self).state_view(),
            final(self).active_id() == old(self).active_id(),
            final(self).active_request_view() == old(self).active_request_view(),
            final(self).counter() == old(self).counter(),
            final(self).has_loader() == old(self).has_loader(),
            final(self).loader_spec() == old(self).loader_spec(),
    {
        self.live_worker = None;
    }

    /// Ends the preview's live subscription.
    pub fn shutdown(&mut self)
        ensures
            final(self).worker() is None,
            final(self).state_view() == old(self).state_view(),
            final(self).active_id() == old(self).active_id(),
            final(self).active_request_view() == old(self).active_request_view(),
            final(self).counter() == old(self).counter(),
            final(self).has_loader() == old(self).has_loader(),
    {
        self.stop_live_worker();
    }

    /// A live subscription for the load `request_id` of `request` should run, when there is a
    /// loader to run it.
    fn start_live_worker(&mut self, request_id: u64, request: PaneSnapshotRequest)
        ensures
            final(self).worker() == (if old(self).has_loader() {
                Some((request_id, request@))
            } else {
                None
            }),
            final(self).state_view() == old(self).state_view(),
            final(self).active_id() == old(self).active_id(),
            final(self).active_request_view() == old(self).active_request_view(),
            final(self).counter() == old(self).counter(),
            final(self).has_loader() == old(self).has_loader(),
    {
        self.stop_live_worker();
        if self.loader.is_none() {
            return;
        }
        self.live_worker = Some(LiveWorker { request_id, request });
    }

    /// No load is current.
    pub fn clear_active_request(&mut self)
        ensures
            final(self).active_id() is None,
            final(self).active_request_view() is None,
            final(self).state_view() == old(self).state_view(),
            final(self).counter() == old(self).counter(),
            final(self).worker() == old(self).worker(),
            final(self).has_loader() == old(self).has_loader(),
    {
        self.active_request_id = None;
        self.active_request = None;
    }

    /// Starts a load of `request`: it gets the next number, becomes the current load, and
    /// the preview shows it loading; any live subscription stops.
    pub fn begin_request(&mut self, request: PaneSnapshotRequest) -> (r: PendingSnapshotRequest)
        ensures
            r.request_id == next_request_id(old(self).counter()),
            r.request@ == request@,
            final(self).counter() == r.request_id,
            final(self).active_id() == Some(r.request_id),
            final(self).active_request_view() == Some(request@),
            final(self).state_view() == (SnapshotPreviewStateView::Loading { request: request@ }),
            final(self).worker() is None,
            final(self).has_loader() == old(self).has_loader(),
            final(self).loader_spec() == old(self).loader_spec(),
    {
        self.stop_live_worker();
        let request_id = self.request_counter.wrapping_add(1);
        self.request_counter = request_id;
        self.active_request_id = Some(request_id);
        self.active_request = Some(request.duplicate());
        self.state = SnapshotPreviewState::Loading { request: request.duplicate() };
        PendingSnapshotRequest { request_id, request }
    }

    /// Whether the load `request_id` of `request` is the current one.
    fn is_active(&self, request_id: u64, request: &PaneSnapshotRequest) -> (b: bool)
        ensures
            b == (self.active_id() == Some(request_id) && self.active_request_view() == Some(
                request@,
            )),
    {
        let id_matches = match self.active_request_id {
            Some(id) => id == request_id,
            None => false,
        };
        let request_matches = match &self.active_request {
            Some(active) => active.same_as(request),
            None => false,
        };
        id_matches && request_matches
    }

    /// Shows the result of a load, when the load is still the current one; a result of an
    /// older load is dropped. Returns whether it was shown.
    pub fn apply_request_result(
        &mut self,
        pending: PendingSnapshotRequest,
        result: Result<PaneSnapshot, RuntimeDiscoveryError>,
    ) -> (r: bool)
        ensures
            r == (old(self).active_id() == Some(pending.request_id)
                && old(self).active_request_view() == Some(pending.request@)),
            r ==> result_state(pending.request@, result, final(self).state_view()),
            !r ==> final(self).state_view() == old(self).state_view(),
            final(self).active_id() == old(self).active_id(),
            final(self).active_request_view() == old(self).active_request_view(),
            final(self).counter() == old(self).counter(),
            final(self).worker() == old(self).worker(),
            final(self).has_loader() == old(self).has_loader(),
    {
        if !self.is_active(pending.request_id, &pending.request) {
            return false;
        }
        self.state = match result {
            Ok(PaneSnapshot::Ready(body)) => SnapshotPreviewState::Ready {
                request: pending.request,
                body,
            },
            Ok(PaneSnapshot::Empty) => SnapshotPreviewState::Empty { request: pending.request },
            Err(error) => SnapshotPreviewState::Error {
                request: pending.request,
                message: error.message(),
            },
        };
        true
    }

    /// Shows a live report, when it belongs to the current load and to the subscription that
    /// should run, and shows something new. Returns whether the preview changed.
    pub fn apply_live_update(&mut self, update: LivePreviewUpdate) -> (r: bool)
        ensures
            ({
                let belongs = old(self).active_id() == Some(update.request_id)
                    && old(self).active_request_view() == Some(update.request@)
                    && old(self).worker() == Some((update.request_id, update.request@));
                let next = payload_state(update.request@, update.payload);
                &&& r == (belongs && next != old(self).state_view())
                &&& final(self).state_view() == (if belongs {
                    next
                } else {
                    old(self).state_view()
                })
            }),
            final(self).active_id() == old(self).active_id(),
            final(self).active_request_view() == old(self).active_request_view(),
            final(self).counter() == old(self).counter(),
            final(self).worker() == old(self).worker(),
            final(self).has_loader() == old(self).has_loader(),
    {
        let worker_matches = match &self.live_worker {
            Some(worker) => worker.request_id == update.request_id && worker.request.same_as(
                &update.request,
            ),
            None => false,
        };
        if !(self.is_active(update.request_id, &update.request) && worker_matches) {
            return false;
        }
        let next_state = match update.payload {
            LivePreviewPayload::Snapshot(PaneSnapshot::Ready(body)) => SnapshotPreviewState::Ready {
                request: update.request,
                body,
            },
            LivePreviewPayload::Snapshot(PaneSnapshot::Empty) => SnapshotPreviewState::Empty {
                request: update.request,
            },
            LivePreviewPayload::Error(message) => SnapshotPreviewState::Error {
                request: update.request,
                message,
            },
        };
        if self.state.same_as(&next_state) {
            return false;
        }
        self.state = next_state;
        true
    }

    /// Follows a new selection. Without a pane to preview, with stale data, or without a
    /// loader, nothing is current and nothing runs. The pane already current keeps its load
    /// (and gets its live subscription back if it stopped). Any other pane gets a new load,
    /// whose result is shown at once, and a live subscription when its data is live.
    pub fn refresh_for_target(&mut self, preview_target: &PreviewTarget)
        ensures
            refreshed(*old(self), *final(self), preview_target@),
    {
        let (request, source_freshness) = match request_from_preview_target(preview_target) {
            Some(found) => found,
            None => {
                self.clear_active_request();
                self.stop_live_worker();
                self.state = SnapshotPreviewState::Unavailable {
                    reason: "selection has no pane snapshot target".to_owned(),
                };
                return;
            },
        };
        if source_freshness == SourceFreshness::Stale {
            self.clear_active_request();
            self.stop_live_worker();
            self.state = SnapshotPreviewState::Stale { request };
            return;
        }
        if self.loader.is_none() {
            self.clear_active_request();
            self.stop_live_worker();
            self.state = SnapshotPreviewState::Unavailable {
                reason: "snapshot loader is disabled".to_owned(),
            };
            return;
        }
        let live = source_supports_live_updates(source_freshness);
        let same_request = match &self.active_request {
            Some(active) => active.same_as(&request),
            None => false,
        };
        if same_request && live {
            if let Some(request_id) = self.active_request_id {
                if self.live_worker.is_none() {
                    self.start_live_worker(request_id, request);
                }
                return;
            }
        }
        let ghost q = request@;
        let pending = self.begin_request(request);
        let result = match &self.loader {
            Some(loader) => loader.load_snapshot(&pending.request),
            None => Err(
                RuntimeDiscoveryError::Cancelled { command: "snapshot loader is disabled".to_owned() },
            ),
        };
        let ghost res = result;
        let request_id = pending.request_id;
        let worker_request = pending.request.duplicate();
        let _ = self.apply_request_result(pending, result);
        assert(old(self).loader_spec().loads(q, res) && result_state(q, res, self.state_view()));
        if live {
            self.start_live_worker(request_id, worker_request);
        } else {
            self.stop_live_worker();
        }
    }
}

/// Whether a live subscription that ended with `result` calls for a one-shot fallback load:
/// it failed other than by cancellation.
pub fn subscription_needs_fallback(result: &Result<(), RuntimeDiscoveryError>) -> (b: bool)
    ensures
        b == (result matches Err(e) && !(e is Cancelled)),
{
    match result {
        Ok(()) => false,
        Err(RuntimeDiscoveryError::Cancelled { .. }) => false,
        Err(_) => true,
    }
}

/// What the preview reports after a live subscription failed with `error` and the fallback
/// load gave `fallback`: the fallback's screen; nothing when the fallback was cancelled; else
/// both failures, in one message.
pub fn subscription_failure_payload(
    error: RuntimeDiscoveryError,
    fallback: Result<PaneSnapshot, RuntimeDiscoveryError>,
) -> (r: Option<LivePreviewPayload>)
    ensures
        match fallback {
            Ok(s) => r == Some(LivePreviewPayload::Snapshot(s)),
            Err(RuntimeDiscoveryError::Cancelled { .. }) => r is None,
            Err(f) => r matches Some(LivePreviewPayload::Error(text)) && exists|
                first: Seq<char>,
                second: Seq<char>,
            |
                #![trigger error_message(error, first), error_message(f, second)]
                error_message(error, first) && error_message(f, second) && text@ == first
                    + "; fallback snapshot failed: "@ + second,
        },
{
    match fallback {
        Ok(snapshot) => Some(LivePreviewPayload::Snapshot(snapshot)),
        Err(RuntimeDiscoveryError::Cancelled { .. }) => None,
        Err(fallback_error) => {
            let first = error.message();
            let second = fallback_error.message();
            proof {
                reveal_strlit("; fallback snapshot failed: ");
            }
            Some(
                LivePreviewPayload::Error(
                    concat3(first.as_str(), "; fallback snapshot failed: ", second.as_str()),
                ),
            )
        },
    }
}

/// The live subscription the preview wants, if any, belongs to its current load.
pub open spec fn worker_follows_current_load<L: SnapshotLoader>(c: SnapshotPreviewController<L>) -> bool {
    c.worker() matches Some((id, q)) ==> c.active_id() == Some(id) && c.active_request_view()
        == Some(q)
}

/// Following a selection keeps the wanted live subscription on the current load: there is
/// at most one, and never one for a load that a newer one replaced.
pub proof fn law_live_worker_follows_current_load<L: SnapshotLoader>(
    old: SnapshotPreviewController<L>,
    new: SnapshotPreviewController<L>,
    t: PreviewTargetView,
)
    requires
        worker_follows_current_load(old),
        refreshed(old, new, t),
    ensures
        worker_follows_current_load(new),
{
}

/// A selection without a pane to preview leaves nothing current and wants no live
/// subscription, whatever was current before, and the preview says there is no pane.
pub proof fn law_no_pane_target_stops_everything<L: SnapshotLoader>(
    old: SnapshotPreviewController<L>,
    new: SnapshotPreviewController<L>,
    t: PreviewTargetView,
)
    requires
        refreshed(old, new, t),
        !(t is PaneSnapshotCandidate),
    ensures
        new.active_id() is None,
        new.active_request_view() is None,
        new.worker() is None,
        new.counter() == old.counter(),
        new.has_loader() == old.has_loader(),
        new.state_view() == (SnapshotPreviewStateView::Unavailable { reason: no_target_reason() }),
{
}

/// A pane whose data is stale is shown as stale and is not loaded: nothing is current, no live
/// subscription is wanted, and no load number is used up.
pub proof fn law_stale_pane_is_not_loaded<L: SnapshotLoader>(
    old: SnapshotPreviewController<L>,
    new: SnapshotPreviewController<L>,
    t: PreviewTargetView,
    q: PaneSnapshotRequestView,
)
    requires
        refreshed(old, new, t),
        request_of_target(t) == Some((q, SourceFreshness::Stale)),
    ensures
        new.active_id() is None,
        new.active_request_view() is None,
        new.worker() is None,
        new.counter() == old.counter(),
        new.state_view() == (SnapshotPreviewStateView::Stale { request: q }),
{
}

/// Leaving a pane for a selection without one and then coming back to a pane starts a new
/// load of that pane: its result is shown, it is the current load, and its live subscription
/// is wanted when the data is live. Nothing of what was current before the detour survives.
pub proof fn law_reselecting_after_no_pane_reloads<L: SnapshotLoader>(
    c0: SnapshotPreviewController<L>,
    c1: SnapshotPreviewController<L>,
    c2: SnapshotPreviewController<L>,
    away: PreviewTargetView,
    back: PreviewTargetView,
    q: PaneSnapshotRequestView,
    f: SourceFreshness,
)
    requires
        refreshed(c0, c1, away),
        !(away is PaneSnapshotCandidate),
        refreshed(c1, c2, back),
        request_of_target(back) == Some((q, f)),
        f != SourceFreshness::Stale,
        c0.has_loader(),
    ensures
        c2.counter() == next_request_id(c0.counter()),
        c2.active_id() == Some(next_request_id(c0.counter())),
        c2.active_request_view() == Some(q),
        exists|result: Result<PaneSnapshot, RuntimeDiscoveryError>|
            #[trigger] c1.loader_spec().loads(q, result) && result_state(q, result, c2.state_view()),
        c2.worker() == (if supports_live(f) {
            Some((next_request_id(c0.counter()), q))
        } else {
            None
        }),
{
}

/// A load's number is never the number of the load started just before it, so a result of an
/// older load is not taken for the current one.
pub proof fn law_new_load_number_differs(counter: u64)
    ensures
        next_request_id(counter) != counter,
        next_request_id(next_request_id(counter)) != next_request_id(counter),
{
}

} // verus!
