use std::collections::VecDeque;
use std::sync::Mutex;

use zellijess::navigation_model::{PreviewTarget, SourceFreshness};
use zellijess::runtime_discovery::{PaneSnapshot, RuntimeDiscoveryError};
use zellijess::tui::preview::{
    subscription_failure_payload, subscription_needs_fallback, LivePreviewPayload,
    LivePreviewUpdate, PaneSnapshotRequest, PendingSnapshotRequest, SnapshotLoader,
    SnapshotPreviewController, SnapshotPreviewState,
};

struct FakeLoader {
    queue: Mutex<VecDeque<Result<PaneSnapshot, RuntimeDiscoveryError>>>,
}

impl FakeLoader {
    fn new(results: Vec<Result<PaneSnapshot, RuntimeDiscoveryError>>) -> Self {
        Self {
            queue: Mutex::new(results.into()),
        }
    }
}

impl SnapshotLoader for FakeLoader {
    fn load_snapshot(
        &self,
        _request: &PaneSnapshotRequest,
    ) -> Result<PaneSnapshot, RuntimeDiscoveryError> {
        self.queue
            .lock()
            .expect("fake snapshot queue lock should succeed")
            .pop_front()
            .expect("fake snapshot queue should have next result")
    }

    fn subscribe_live_snapshots_with_cancel<F: FnMut(PaneSnapshot), C: Fn() -> bool>(
        &self,
        _request: &PaneSnapshotRequest,
        _on_snapshot: F,
        _is_cancelled: &C,
    ) -> Result<(), RuntimeDiscoveryError> {
        Err(RuntimeDiscoveryError::Cancelled {
            command: "fake-subscribe".to_owned(),
        })
    }
}

fn pane_target(source_freshness: SourceFreshness) -> PreviewTarget {
    pane_target_for_pane_id(source_freshness, 7)
}

fn pane_target_for_pane_id(source_freshness: SourceFreshness, pane_id: u64) -> PreviewTarget {
    PreviewTarget::PaneSnapshotCandidate {
        session_name: "work".to_owned(),
        tab_id: 3,
        tab_position: 2,
        pane_id,
        source_freshness,
    }
}

fn pane_request(session_name: &str, pane_id: u64) -> PaneSnapshotRequest {
    PaneSnapshotRequest {
        session_name: session_name.to_owned(),
        tab_id: 1,
        tab_position: 0,
        pane_id,
    }
}

fn clone_pending(pending: &PendingSnapshotRequest) -> PendingSnapshotRequest {
    PendingSnapshotRequest {
        request_id: pending.request_id,
        request: pending.request.clone(),
    }
}

#[test]
fn refresh_maps_loader_success_empty_and_error_results() {
    let mut ready_controller = SnapshotPreviewController::with_loader(Box::new(FakeLoader::new(
        vec![Ok(PaneSnapshot::Ready("hello".to_owned()))],
    )));
    ready_controller.refresh_for_target(&pane_target(SourceFreshness::Runtime));
    assert!(matches!(
        ready_controller.state(),
        SnapshotPreviewState::Ready { body, .. } if body == "hello"
    ));

    let mut empty_controller = SnapshotPreviewController::with_loader(Box::new(FakeLoader::new(
        vec![Ok(PaneSnapshot::Empty)],
    )));
    empty_controller.refresh_for_target(&pane_target(SourceFreshness::Runtime));
    assert!(matches!(
        empty_controller.state(),
        SnapshotPreviewState::Empty { .. }
    ));

    let mut error_controller = SnapshotPreviewController::with_loader(Box::new(FakeLoader::new(
        vec![Err(RuntimeDiscoveryError::CommandFailed {
            command: "zellij --session work action dump-screen --pane-id 7 --ansi".to_owned(),
            exit_code: Some(1),
            stderr: "boom".to_owned(),
        })],
    )));
    error_controller.refresh_for_target(&pane_target(SourceFreshness::Runtime));
    assert!(matches!(
        error_controller.state(),
        SnapshotPreviewState::Error { message, .. } if message.contains("dump-screen")
    ));
}

#[test]
fn stale_result_is_rejected_and_does_not_override_newer_preview() {
    let mut controller = SnapshotPreviewController::disabled();
    let old_pending = controller.begin_request(pane_request("session-a", 3));
    let new_pending = controller.begin_request(pane_request("session-b", 4));

    assert!(controller.apply_request_result(
        clone_pending(&new_pending),
        Ok(PaneSnapshot::Ready("new".to_owned()))
    ));
    assert!(!controller.apply_request_result(
        clone_pending(&old_pending),
        Ok(PaneSnapshot::Ready("old".to_owned()))
    ));

    assert!(matches!(
        controller.state(),
        SnapshotPreviewState::Ready { request, body }
            if request.session_name == "session-b" && request.pane_id == 4 && body == "new"
    ));
}

#[test]
fn stale_source_maps_to_stale_preview_state() {
    let mut controller = SnapshotPreviewController::disabled();
    controller.refresh_for_target(&pane_target(SourceFreshness::Stale));

    assert!(matches!(
        controller.state(),
        SnapshotPreviewState::Stale { request }
            if request.session_name == "work" && request.pane_id == 7
    ));
}

#[test]
fn stale_live_updates_are_rejected_by_request_identity() {
    let mut controller = SnapshotPreviewController::disabled();
    let old_pending = controller.begin_request(pane_request("session-a", 3));
    let new_pending = controller.begin_request(pane_request("session-b", 4));

    let stale_update = LivePreviewUpdate {
        request_id: old_pending.request_id,
        request: old_pending.request.clone(),
        payload: LivePreviewPayload::Snapshot(PaneSnapshot::Ready("old".to_owned())),
    };

    assert!(!controller.apply_live_update(stale_update));
    assert!(controller.apply_request_result(
        clone_pending(&new_pending),
        Ok(PaneSnapshot::Ready("new".to_owned()))
    ));
    assert!(matches!(
        controller.state(),
        SnapshotPreviewState::Ready { request, body }
            if request.session_name == "session-b" && request.pane_id == 4 && body == "new"
    ));
}

#[test]
fn live_worker_follows_the_current_runtime_pane() {
    let mut controller = SnapshotPreviewController::with_loader(Box::new(FakeLoader::new(vec![
        Ok(PaneSnapshot::Ready("a".to_owned())),
        Ok(PaneSnapshot::Ready("b".to_owned())),
    ])));
    controller.refresh_for_target(&pane_target_for_pane_id(SourceFreshness::Runtime, 7));
    let first = controller.live_worker().expect("a live worker should be wanted");
    assert_eq!(first.request.pane_id, 7);

    controller.refresh_for_target(&pane_target_for_pane_id(SourceFreshness::Runtime, 7));
    assert_eq!(
        controller.live_worker().expect("worker stays for the same pane").request_id,
        first.request_id
    );

    controller.refresh_for_target(&pane_target_for_pane_id(SourceFreshness::Cache, 9));
    assert!(controller.live_worker().is_none());
    assert!(matches!(
        controller.state(),
        SnapshotPreviewState::Ready { body, .. } if body == "b"
    ));

    controller.refresh_for_target(&PreviewTarget::Unavailable {
        reason: "no pane selected",
    });
    assert!(controller.live_worker().is_none());
    assert!(matches!(
        controller.state(),
        SnapshotPreviewState::Unavailable { reason } if reason == "selection has no pane snapshot target"
    ));
}

#[test]
fn duplicate_live_frames_do_not_change_the_preview() {
    let mut controller = SnapshotPreviewController::with_loader(Box::new(FakeLoader::new(vec![Ok(
        PaneSnapshot::Ready("steady".to_owned()),
    )])));
    controller.refresh_for_target(&pane_target(SourceFreshness::Runtime));
    let worker = controller.live_worker().expect("worker wanted");

    let same = LivePreviewUpdate {
        request_id: worker.request_id,
        request: worker.request.clone(),
        payload: LivePreviewPayload::Snapshot(PaneSnapshot::Ready("steady".to_owned())),
    };
    assert!(!controller.apply_live_update(same));

    let newer = LivePreviewUpdate {
        request_id: worker.request_id,
        request: worker.request.clone(),
        payload: LivePreviewPayload::Snapshot(PaneSnapshot::Ready("moved".to_owned())),
    };
    assert!(controller.apply_live_update(newer));
    assert!(matches!(
        controller.state(),
        SnapshotPreviewState::Ready { body, .. } if body == "moved"
    ));
}

#[test]
fn disabled_controller_reports_missing_loader() {
    let mut controller = SnapshotPreviewController::disabled();
    controller.refresh_for_target(&pane_target(SourceFreshness::Runtime));
    assert!(matches!(
        controller.state(),
        SnapshotPreviewState::Unavailable { reason } if reason == "snapshot loader is disabled"
    ));
}

#[test]
fn subscription_failure_falls_back_to_one_snapshot() {
    assert!(!subscription_needs_fallback(&Ok(())));
    assert!(!subscription_needs_fallback(&Err(RuntimeDiscoveryError::Cancelled {
        command: "x".to_owned(),
    })));
    let failed: Result<(), RuntimeDiscoveryError> = Err(RuntimeDiscoveryError::CommandFailed {
        command: "x".to_owned(),
        exit_code: Some(1),
        stderr: String::new(),
    });
    assert!(subscription_needs_fallback(&failed));

    let error = RuntimeDiscoveryError::Cancelled {
        command: "sub".to_owned(),
    };
    let payload = subscription_failure_payload(error, Ok(PaneSnapshot::Ready("baseline".to_owned())));
    assert_eq!(
        payload,
        Some(LivePreviewPayload::Snapshot(PaneSnapshot::Ready("baseline".to_owned())))
    );

    let error = RuntimeDiscoveryError::Cancelled {
        command: "sub".to_owned(),
    };
    let payload = subscription_failure_payload(
        error,
        Err(RuntimeDiscoveryError::Cancelled {
            command: "dump".to_owned(),
        }),
    );
    assert_eq!(payload, None);

    let error = RuntimeDiscoveryError::Cancelled {
        command: "sub".to_owned(),
    };
    let payload = subscription_failure_payload(
        error,
        Err(RuntimeDiscoveryError::CommandFailed {
            command: "dump".to_owned(),
            exit_code: Some(2),
            stderr: String::new(),
        }),
    );
    assert_eq!(
        payload,
        Some(LivePreviewPayload::Error(
            "`sub` was cancelled; fallback snapshot failed: `dump` failed with exit code Some(2)"
                .to_owned()
        ))
    );
}
